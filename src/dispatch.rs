//! The steps that every route shares: reading the common parameters into a
//! baseline envelope, and turning a handler's outcome into a response.
use vstd::prelude::*;
use crate::error::{Error, Result};
use crate::ids::{Uuid, uuid_error_text_of, uuid_parse_of};
use crate::message::{MessageView, ServerApiStatus, ServerMessage, default_view, message_json};
use crate::params::{Params, flag_spec, get_param_option};

verus! {

/// An HTTP response: status code and body text.
pub struct Response {
    pub status: u16,
    pub body: String,
}

/// The status code for an envelope: 200 unless it failed, 400 if it did.
pub open spec fn status_code_of(s: ServerApiStatus) -> u16 {
    match s {
        ServerApiStatus::Success | ServerApiStatus::PartialSuccess => 200,
        ServerApiStatus::Failed => 400,
    }
}

/// The layout that the request's `pretty` flag asks for: pretty when it is
/// missing, else the flag's literal value; nothing when it is malformed.
pub open spec fn pretty_requested(params: &Params) -> Option<bool> {
    flag_spec(params.get_spec("pretty"@), true)
}

/// The envelope for a malformed `pretty` flag, laid out pretty.
pub open spec fn bad_pretty_view(api: Seq<char>, got: Seq<char>) -> MessageView {
    MessageView {
        api,
        status: ServerApiStatus::Failed,
        error: Some(
            seq![
                ("parameter"@, "Param `"@ + "pretty"@ + "` with value `"@ + got
                    + "` cannot be parsed to `"@ + "bool"@ + "`."@),
            ],
        ),
        ..default_view()
    }
}

/// The envelope for a malformed `library` parameter.
pub open spec fn bad_library_view(api: Seq<char>, pretty: bool, reason: Seq<char>) -> MessageView {
    MessageView {
        api,
        is_pretty: pretty,
        status: ServerApiStatus::Failed,
        error: Some(
            seq![("parameter"@, "Parameter `library` is not a valid Uuid identifier. Err: "@ + reason)],
        ),
        ..default_view()
    }
}

/// The start of every request. On success: the `library` identifier if one
/// is given, and the baseline envelope that names the route, carries the
/// layout asked for and the identifier. A `pretty` flag other than `true` or
/// `false`, or a `library` text that is no identifier, ends the request at
/// once with a failed envelope and status 400; the flag is read first.
pub fn prepare_request(api: &str, params: &Params) -> (r: core::result::Result<
    (Option<Uuid>, ServerMessage),
    Response,
>)
    ensures
        match pretty_requested(params) {
            None => r matches Err(resp) && resp.status == 400 && resp.body@ == message_json(
                bad_pretty_view(api@, params.get_spec("pretty"@)->Some_0),
            ),
            Some(pretty) => match params.get_spec("library"@) {
                Some(t) => match uuid_parse_of(t) {
                    Some(v) => r matches Ok((lib, msg)) && lib == Some(Uuid { value: v })
                        && msg@ == (MessageView {
                        api: api@,
                        is_pretty: pretty,
                        library: lib,
                        ..default_view()
                    }),
                    None => r matches Err(resp) && resp.status == 400 && resp.body@
                        == message_json(bad_library_view(api@, pretty, uuid_error_text_of(t))),
                },
                None => r matches Ok((lib, msg)) && lib is None && msg@ == (MessageView {
                    api: api@,
                    is_pretty: pretty,
                    ..default_view()
                }),
            },
        },
{
    let base = ServerMessage::default().with_api(api);
    let pretty = match get_param_option::<bool>(params, "pretty") {
        Ok(Some(b)) => b,
        Ok(None) => true,
        Err(e) => {
            let d = e.describe();
            let failed = base.with_single_error("parameter", d.as_str(), None, None);
            return Err(respond(&failed));
        },
    };
    let base = if pretty {
        base.with_pretty_json()
    } else {
        base.without_pretty_json()
    };
    match params.get("library") {
        Some(text) => match Uuid::parse(text.as_str()) {
            Ok(id) => Ok((Some(id), base.with_library(id))),
            Err(reason) => {
                let mut detail = String::from_str(
                    "Parameter `library` is not a valid Uuid identifier. Err: ",
                );
                detail.append(reason.as_str());
                let failed = base.with_single_error("parameter", detail.as_str(), None, None);
                assert(failed@ == bad_library_view(api@, pretty, reason@));
                Err(respond(&failed))
            },
        },
        None => Ok((None, base)),
    }
}

/// The response for an envelope: its JSON text, with 200 unless it failed.
pub fn respond(msg: &ServerMessage) -> (r: Response)
    ensures
        r.status == status_code_of(msg.status),
        r.body@ == message_json(msg@),
{
    let status: u16 = match msg.status {
        ServerApiStatus::Success | ServerApiStatus::PartialSuccess => 200,
        ServerApiStatus::Failed => 400,
    };
    Response { status, body: msg.to_json_string() }
}

/// The envelope for a handler that failed with `e`: the baseline, failed,
/// with the error's description under `action`.
pub open spec fn action_error_view(base: MessageView, e: Error, library: Option<Uuid>) -> MessageView {
    MessageView {
        status: ServerApiStatus::Failed,
        error: Some(seq![("action"@, e.describe_spec())]),
        library,
        media: None,
        ..base
    }
}

/// Turns a handler's outcome into the response: an envelope goes out as it
/// is; an error becomes the baseline envelope failed with the error's text,
/// always with status 400.
pub fn finish_request(
    base: ServerMessage,
    library: Option<Uuid>,
    outcome: Result<ServerMessage>,
) -> (r: Response)
    ensures
        match outcome {
            Ok(m) => r.status == status_code_of(m.status) && r.body@ == message_json(m@),
            Err(e) => r.status == 400 && r.body@ == message_json(
                action_error_view(base@, e, library),
            ),
        },
{
    match outcome {
        Ok(m) => respond(&m),
        Err(e) => {
            let d = e.describe();
            let failed = base.with_single_error("action", d.as_str(), library, None);
            respond(&failed)
        },
    }
}

} // verus!
