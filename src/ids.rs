//! 128-bit library identifiers and their text.
use vstd::prelude::*;

verus! {

/// A universally unique identifier, held as its 128-bit value.
#[derive(Clone, Copy, PartialEq, Eq, Structural, Debug, Hash)]
pub struct Uuid {
    pub value: u128,
}

/// What `uuid::Uuid::parse_str` makes of a text, if it accepts it.
pub uninterp spec fn uuid_parse_of(s: Seq<char>) -> Option<u128>;

/// The message that `uuid::Error` displays for the error `parse_str` returns
/// on a text it refuses.
pub uninterp spec fn uuid_error_text_of(s: Seq<char>) -> Seq<char>;

/// The hyphenated lower-case text that `uuid::Uuid` displays for a value.
pub uninterp spec fn uuid_text_of(v: u128) -> Seq<char>;

/// Relies on `uuid::Uuid::parse_str` and the `Display` of its error: it
/// accepts a text or says why not; both depend on the text alone.
#[verifier::external_body]
fn parse_uuid_text(s: &str) -> (r: Result<u128, String>)
    ensures
        r is Ok <==> uuid_parse_of(s@) is Some,
        r is Ok ==> uuid_parse_of(s@) == Some(r->Ok_0),
        r is Err ==> r->Err_0@ == uuid_error_text_of(s@),
{
    match uuid::Uuid::parse_str(s) {
        Ok(u) => Ok(u.as_u128()),
        Err(e) => Err(e.to_string()),
    }
}

/// Relies on `uuid::Uuid`'s `Display`: the hyphenated form, which
/// `parse_str` accepts back as the same value.
#[verifier::external_body]
fn uuid_display(v: u128) -> (r: String)
    ensures
        r@ == uuid_text_of(v),
        uuid_parse_of(r@) == Some(v),
{
    uuid::Uuid::from_u128(v).to_string()
}

impl Uuid {
    /// Reads an identifier from its text; the error holds the reason.
    pub fn parse(s: &str) -> (r: Result<Uuid, String>)
        ensures
            r is Ok <==> uuid_parse_of(s@) is Some,
            r is Ok ==> uuid_parse_of(s@) == Some(r->Ok_0.value),
            r is Err ==> r->Err_0@ == uuid_error_text_of(s@),
    {
        match parse_uuid_text(s) {
            Ok(v) => Ok(Uuid { value: v }),
            Err(e) => Err(e),
        }
    }

    /// The hyphenated text of the identifier, which reads back as it.
    pub fn to_text(&self) -> (r: String)
        ensures
            r@ == uuid_text_of(self.value),
            uuid_parse_of(r@) == Some(self.value),
    {
        uuid_display(self.value)
    }
}

} // verus!
