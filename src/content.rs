//! Media kinds from file contents, and raw bytes as response text.
use vstd::prelude::*;
use crate::message::{MessageView, ServerMessage};
use mime_sniffer::MimeTypeSniffer;

verus! {

/// The MIME type that mime_sniffer reads from the first bytes of a file, if
/// it recognizes them.
pub uninterp spec fn sniffed_mime_of(head: Seq<u8>) -> Option<Seq<char>>;

/// The top-level type (`image` of `image/png`) of a MIME type text, if the
/// mime crate parses it.
pub uninterp spec fn mime_top_level_of(s: Seq<char>) -> Option<Seq<char>>;

/// The standard base64 text of some bytes, with padding.
pub uninterp spec fn base64_of(b: Seq<u8>) -> Seq<char>;

/// Relies on `mime_sniffer::MimeTypeSniffer::sniff_mime_type` on a byte
/// slice: the type it finds depends on the bytes alone.
#[verifier::external_body]
fn sniff_mime(head: &[u8]) -> (r: Option<String>)
    ensures
        match r {
            Some(t) => sniffed_mime_of(head@) == Some(t@),
            None => sniffed_mime_of(head@) is None,
        },
{
    head.sniff_mime_type().map(|t| t.to_string())
}

/// Relies on `str::parse::<mime::Mime>` and `Mime::type_`: the top-level
/// type of a MIME type text, which the mime crate keeps in lower case.
#[verifier::external_body]
fn mime_top_level(s: &str) -> (r: Option<String>)
    ensures
        match r {
            Some(t) => mime_top_level_of(s@) == Some(t@),
            None => mime_top_level_of(s@) is None,
        },
{
    s.parse::<mime::Mime>().ok().map(|m| m.type_().as_str().to_string())
}

/// Relies on `base64::encode`: the standard alphabet with padding; no bytes
/// give no text.
#[verifier::external_body]
fn encode_base64(b: &[u8]) -> (r: String)
    ensures
        r@ == base64_of(b@),
        b@.len() == 0 ==> r@.len() == 0,
{
    base64::encode(b)
}

/// The media kind for a top-level MIME type: `image`, `text`, `audio` and
/// `video` stand for themselves, anything else or nothing is `other`.
pub open spec fn kind_of_top_level(t: Option<Seq<char>>) -> Seq<char> {
    match t {
        Some(s) => if s == "image"@ || s == "text"@ || s == "audio"@ || s == "video"@ {
            s
        } else {
            "other"@
        },
        None => "other"@,
    }
}

/// The media kind for a top-level MIME type.
pub fn media_kind_of_top_level(t: Option<&str>) -> (r: String)
    ensures
        r@ == kind_of_top_level(
            match t {
                Some(s) => Some(s@),
                None => None,
            },
        ),
{
    match t {
        Some(s) => {
            let v = String::from_str(s);
            if v == String::from_str("image") || v == String::from_str("text") || v
                == String::from_str("audio") || v == String::from_str("video") {
                v
            } else {
                String::from_str("other")
            }
        },
        None => String::from_str("other"),
    }
}

/// The media kind guessed from a file's first bytes, when their MIME type can
/// be recognized.
pub open spec fn guessed_kind(head: Seq<u8>) -> Option<Seq<char>> {
    match sniffed_mime_of(head) {
        Some(m) => Some(kind_of_top_level(mime_top_level_of(m))),
        None => None,
    }
}

/// Guesses the media kind of a file from its first bytes.
pub fn guess_media_kind(head: &[u8]) -> (r: Option<String>)
    ensures
        match r {
            Some(k) => guessed_kind(head@) == Some(k@),
            None => guessed_kind(head@) is None,
        },
{
    match sniff_mime(head) {
        Some(m) => {
            let top = mime_top_level(m.as_str());
            let k = match &top {
                Some(t) => media_kind_of_top_level(Some(t.as_str())),
                None => media_kind_of_top_level(None),
            };
            Some(k)
        },
        None => None,
    }
}

/// The answer that carries raw bytes, such as a thumbnail: their base64 text
/// as the result, in format `base64`.
pub fn bytes_message(msg: ServerMessage, bytes: &[u8]) -> (r: ServerMessage)
    ensures
        r@ == (MessageView { result: Some(base64_of(bytes@)), format: Some("base64"@), ..msg@ }),
{
    let text = encode_base64(bytes);
    msg.with_result(text).with_format("base64")
}

} // verus!
