//! The decisions of the routes: which parameters each one needs, what it does
//! to the registry, and the envelope it answers with. The library engine's
//! own work happens between these steps, outside this crate.
use vstd::prelude::*;
use crate::error::{Error, Result, not_existed_text};
use crate::ids::Uuid;
use crate::message::{MessageView, ServerApiStatus, ServerMessage, text_option_view};
use crate::params::{
    Params, ParamValue, get_param, get_param_bool, get_param_option, is_missing_error,
    optional_readable, optional_reads_as, param_error, readable, reads_as,
};
use crate::registry::Registry;
use crate::content::{guess_media_kind, guessed_kind};

verus! {

/// The library that a route acts on; an error when the request names none.
pub fn require_library(library: Option<Uuid>) -> (r: Result<Uuid>)
    ensures
        match library {
            Some(id) => r matches Ok(x) && x == id,
            None => r is Err && is_missing_error(r->Err_0, "Library"@),
        },
{
    match library {
        Some(id) => Ok(id),
        None => Err(Error::NoParam(String::from_str("Library"))),
    }
}

/// Write access to the opened library `id`; `LibraryNotOpened` when it is
/// not open.
pub fn opened_handle<H>(reg: &mut Registry<H>, id: Uuid) -> (r: Result<&mut H>)
    ensures
        match r {
            Ok(h) => {
                &&& old(reg).is_open(id)
                &&& *h == old(reg).handles()[id.value]
                &&& final(reg).handles() == old(reg).handles().insert(id.value, *final(h))
            },
            Err(e) => {
                &&& !old(reg).is_open(id)
                &&& e matches Error::LibraryNotOpened(x) && x == id
                &&& final(reg).handles() == old(reg).handles()
            },
        },
{
    match reg.get_mut(id) {
        Some(h) => Ok(h),
        None => Err(Error::LibraryNotOpened(id)),
    }
}

/// The registry after closing `id`, and whether `id` was open to be closed.
pub open spec fn close_spec<H>(handles: Map<u128, H>, id: Uuid) -> (bool, Map<u128, H>) {
    if handles.contains_key(id.value) {
        (true, handles.remove(id.value))
    } else {
        (false, handles)
    }
}

/// Closes a library: its handle leaves the registry and is dropped here,
/// which finalizes it. The envelope is the baseline one. Without an
/// identifier the parameter is missing; for one that is not open the answer
/// is `LibraryNotOpened`, and the registry stays as it is.
pub fn library_close<H>(reg: &mut Registry<H>, library: Option<Uuid>, msg: ServerMessage) -> (r:
    Result<ServerMessage>)
    ensures
        match library {
            None => {
                &&& r is Err && is_missing_error(r->Err_0, "library"@)
                &&& final(reg).handles() == old(reg).handles()
            },
            Some(id) => {
                &&& final(reg).handles() == close_spec(old(reg).handles(), id).1
                &&& if close_spec(old(reg).handles(), id).0 {
                    r matches Ok(m) && m@ == msg@
                } else {
                    r matches Err(Error::LibraryNotOpened(x)) && x == id
                }
            },
        },
{
    match library {
        Some(id) => {
            if reg.contains(id) {
                match reg.remove(id) {
                    Some(_closed) => Ok(msg),
                    None => Err(Error::LibraryNotOpened(id)),
                }
            } else {
                Err(Error::LibraryNotOpened(id))
            }
        },
        None => Err(Error::NoParam(String::from_str("library"))),
    }
}

/// Closing twice: once `id` is closed it is not open, so a second close
/// reports it as not opened and changes nothing; no handle is finalized twice.
pub proof fn lemma_close_twice<H>(handles: Map<u128, H>, id: Uuid)
    ensures
        !close_spec(close_spec(handles, id).1, id).0,
        close_spec(close_spec(handles, id).1, id).1 == close_spec(handles, id).1,
{
}

} // verus!

verus! {

/// The envelope for a library folder that is not there: failed, with the
/// reason under `library`.
pub open spec fn folder_missing_view(msg: MessageView, path: Seq<char>) -> MessageView {
    MessageView {
        status: ServerApiStatus::Failed,
        error: Some(seq![("library"@, not_existed_text(path, "path"@, "Folder"@))]),
        media: None,
        ..msg
    }
}

/// Opening a library needs `path` to be a folder (`is_dir` says whether it
/// is). If it is, the envelope and path go on to the opening; if not, the
/// request is answered with a failed envelope that names the path.
pub fn library_open_check(msg: ServerMessage, path: String, is_dir: bool) -> (r: core::result::Result<
    (ServerMessage, String),
    ServerMessage,
>)
    ensures
        is_dir ==> (r matches Ok((m, p)) && m@ == msg@ && p@ == path@),
        !is_dir ==> (r matches Err(m) && m@ == folder_missing_view(msg@, path@)),
{
    if is_dir {
        Ok((msg, path))
    } else {
        let e = Error::NotExisted {
            got: path,
            field: String::from_str("path"),
            expect: String::from_str("Folder"),
        };
        let d = e.describe();
        let lib = msg.library;
        Err(msg.with_single_error("library", d.as_str(), lib, None))
    }
}

/// Registers a library that was just opened or created, and answers with
/// its identifier. An identifier that is open already keeps its handle: the
/// new one is dropped and no second slot is made.
pub fn register_opened<H>(reg: &mut Registry<H>, msg: ServerMessage, id: Uuid, h: H) -> (r:
    ServerMessage)
    ensures
        final(reg).handles() == if old(reg).is_open(id) {
            old(reg).handles()
        } else {
            old(reg).handles().insert(id.value, h)
        },
        r@ == (MessageView { library: Some(id), ..msg@ }),
{
    if !reg.contains(id) {
        let _ = reg.insert(id, h);
    }
    msg.with_library(id)
}

/// What creating a library needs, read from the request.
pub struct CreateRequest {
    pub path: String,
    pub name: String,
    pub master: Option<String>,
    pub media_folder: Option<String>,
    pub features: Option<String>,
}

/// Reads the parameters of a library creation. `path` is required and must
/// not exist yet (`path_exists` says whether it does); `name` is required;
/// `master`, `media_folder` and `features` are optional.
pub fn library_create_request(params: &Params, path_exists: bool) -> (r: Result<CreateRequest>)
    ensures
        match params.get_spec("path"@) {
            None => r is Err && is_missing_error(r->Err_0, "path"@),
            Some(p) => if path_exists {
                r matches Err(Error::AlreadyExisted { got, field }) && got@ == p && field@
                    == "path"@
            } else {
                match params.get_spec("name"@) {
                    None => r is Err && is_missing_error(r->Err_0, "name"@),
                    Some(n) => r matches Ok(req) && {
                        &&& req.path@ == p
                        &&& req.name@ == n
                        &&& text_option_view(req.master) == params.get_spec("master"@)
                        &&& text_option_view(req.media_folder) == params.get_spec(
                            "media_folder"@,
                        )
                        &&& text_option_view(req.features) == params.get_spec("features"@)
                    },
                }
            },
        },
{
    let path: String = get_param(params, "path")?;
    if path_exists {
        return Err(Error::AlreadyExisted { got: path, field: String::from_str("path") });
    }
    let features: Option<String> = get_param_option(params, "features")?;
    let name: String = get_param(params, "name")?;
    let master: Option<String> = get_param_option(params, "master")?;
    let media_folder: Option<String> = get_param_option(params, "media_folder")?;
    Ok(CreateRequest { path, name, master, media_folder, features })
}

/// What adding a media needs, read from the request.
pub struct MediaAddRequest {
    pub library: Uuid,
    pub path: String,
    pub kind: Option<String>,
    pub sub_kind: Option<String>,
    pub kind_addition: Option<String>,
    pub caption: Option<String>,
    pub comment: Option<String>,
    pub delete: bool,
}

/// Reads the parameters of a media addition, all before the library engine
/// is touched: the library, the `path` of a file (`is_file` says whether it
/// is one), the optional `type`, `sub_type`, `type_addition`, `caption` and
/// `comment`, and the `delete` flag. Then the library must be open in `reg`:
/// that is decided here, before the file is read to guess its kind.
pub fn media_add_request<H>(
    reg: &Registry<H>,
    library: Option<Uuid>,
    params: &Params,
    is_file: bool,
) -> (r: Result<MediaAddRequest>)
    ensures
        library is None ==> (r is Err && is_missing_error(r->Err_0, "Library"@)),
        library is Some ==> match params.get_spec("path"@) {
            None => r is Err && is_missing_error(r->Err_0, "path"@),
            Some(p) => if !is_file {
                r matches Err(Error::NotExisted { got, field, expect }) && got@ == p && field@
                    == "path"@ && expect@ == "File"@
            } else {
                match crate::params::flag_spec(params.get_spec("delete"@), false) {
                    None => r is Err && crate::params::is_invalid_error::<bool>(
                        r->Err_0,
                        "delete"@,
                        params.get_spec("delete"@)->Some_0,
                    ),
                    Some(d) => if !reg.is_open(library->Some_0) {
                        r matches Err(Error::LibraryNotOpened(x)) && x == library->Some_0
                    } else {
                        r matches Ok(req) && {
                        &&& req.library == library->Some_0
                        &&& req.path@ == p
                        &&& text_option_view(req.kind) == params.get_spec("type"@)
                        &&& text_option_view(req.sub_kind) == params.get_spec("sub_type"@)
                        &&& text_option_view(req.kind_addition) == params.get_spec(
                            "type_addition"@,
                        )
                        &&& text_option_view(req.caption) == params.get_spec("caption"@)
                        &&& text_option_view(req.comment) == params.get_spec("comment"@)
                        &&& req.delete == d
                    }
                    },
                }
            },
        },
{
    let library = require_library(library)?;
    let path: String = get_param(params, "path")?;
    if !is_file {
        return Err(
            Error::NotExisted {
                got: path,
                expect: String::from_str("File"),
                field: String::from_str("path"),
            },
        );
    }
    let kind: Option<String> = get_param_option(params, "type")?;
    let sub_kind: Option<String> = get_param_option(params, "sub_type")?;
    let kind_addition: Option<String> = get_param_option(params, "type_addition")?;
    let caption: Option<String> = get_param_option(params, "caption")?;
    let comment: Option<String> = get_param_option(params, "comment")?;
    let delete = get_param_bool(params, "delete")?;
    if !reg.contains(library) {
        return Err(Error::LibraryNotOpened(library));
    }
    Ok(MediaAddRequest { library, path, kind, sub_kind, kind_addition, caption, comment, delete })
}

/// The detail for a source file that could not be removed.
pub open spec fn removal_failed_text(path: Seq<char>, reason: Seq<char>) -> Seq<char> {
    "Failed to remove original file `"@ + path + "` due to "@ + reason + "."@
}

/// The answer to a media addition that gave `media`. `removal` is the outcome
/// of removing the source file, when that was asked for. If the removal
/// failed, the media stays added: the status is `PartialSuccess`, with the
/// reason under `Media`.
pub fn media_add_finish(
    msg: ServerMessage,
    library: Uuid,
    media: u64,
    path: &str,
    removal: Option<core::result::Result<(), String>>,
) -> (r: ServerMessage)
    ensures
        match removal {
            Some(Err(e)) => r@ == (MessageView {
                status: ServerApiStatus::PartialSuccess,
                error: Some(seq![("Media"@, removal_failed_text(path@, e@))]),
                library: Some(library),
                media: Some(media),
                ..msg@
            }),
            _ => r@ == (MessageView { media: Some(media), ..msg@ }),
        },
{
    match removal {
        Some(Err(e)) => {
            let mut d = String::from_str("Failed to remove original file `");
            d.append(path);
            d.append("` due to ");
            d.append(e.as_str());
            d.append(".");
            msg.with_single_error_but_partial_success("Media", d.as_str(), Some(library), Some(media))
        },
        _ => msg.with_media(media),
    }
}

/// The envelope for a media whose kind was neither given nor recognized.
pub open spec fn kind_unknown_view(msg: MessageView, library: Uuid) -> MessageView {
    MessageView {
        status: ServerApiStatus::Failed,
        error: Some(
            seq![("Media"@, "Cannot guess file type, please provide parameter `type`."@)],
        ),
        library: Some(library),
        media: None,
        ..msg
    }
}

/// The kind to add a media as: the `type` given, else the one guessed from
/// the file's first bytes `head`. When there is neither, the request is
/// answered with a failed envelope under `Media`.
pub fn media_add_kind(msg: ServerMessage, req: &MediaAddRequest, head: &[u8]) -> (r:
    core::result::Result<(ServerMessage, String), ServerMessage>)
    ensures
        match req.kind {
            Some(k) => r matches Ok((m, x)) && m@ == msg@ && x@ == k@,
            None => match guessed_kind(head@) {
                Some(g) => r matches Ok((m, x)) && m@ == msg@ && x@ == g,
                None => r matches Err(m) && m@ == kind_unknown_view(msg@, req.library),
            },
        },
{
    match &req.kind {
        Some(k) => Ok((msg, k.clone())),
        None => match guess_media_kind(head) {
            Some(g) => Ok((msg, g)),
            None => Err(
                msg.with_single_error(
                    "Media",
                    "Cannot guess file type, please provide parameter `type`.",
                    Some(req.library),
                    None,
                ),
            ),
        },
    }
}

/// Reads the library and one required parameter `key` as a `T`: what the
/// routes that act on one media, series or tag of a library need.
pub fn target_request<T: ParamValue>(library: Option<Uuid>, params: &Params, key: &str) -> (r:
    Result<(Uuid, T)>)
    ensures
        match library {
            None => r is Err && is_missing_error(r->Err_0, "Library"@),
            Some(id) => if readable::<T>(params, key@) {
                r matches Ok((l, v)) && l == id && reads_as(params, key@, v)
            } else {
                r is Err && param_error::<T>(params, key@, r->Err_0)
            },
        },
{
    let library = require_library(library)?;
    let v: T = get_param(params, key)?;
    Ok((library, v))
}

/// What creating a series or a tag needs: the library, a required
/// `caption` and an optional `comment`.
pub fn caption_request(library: Option<Uuid>, params: &Params) -> (r: Result<
    (Uuid, String, Option<String>),
>)
    ensures
        match library {
            None => r is Err && is_missing_error(r->Err_0, "Library"@),
            Some(id) => match params.get_spec("caption"@) {
                None => r is Err && is_missing_error(r->Err_0, "caption"@),
                Some(c) => r matches Ok((l, caption, comment)) && l == id && caption@ == c
                    && text_option_view(comment) == params.get_spec("comment"@),
            },
        },
{
    let library = require_library(library)?;
    let caption: String = get_param(params, "caption")?;
    let comment: Option<String> = get_param_option(params, "comment")?;
    Ok((library, caption, comment))
}

/// What adding a media to a series needs, and the placement asked for.
pub struct SeriesAddRequest {
    pub library: Uuid,
    pub media: u64,
    pub series: String,
    pub no: Option<u64>,
    pub unsorted: bool,
}

/// Reads `media`, `series`, the optional number `no` and the `unsorted`
/// flag, in that order.
pub fn series_add_request(library: Option<Uuid>, params: &Params) -> (r: Result<SeriesAddRequest>)
    ensures
        library is None ==> (r is Err && is_missing_error(r->Err_0, "Library"@)),
        library is Some ==> if !readable::<u64>(params, "media"@) {
            r is Err && param_error::<u64>(params, "media"@, r->Err_0)
        } else if !readable::<String>(params, "series"@) {
            r is Err && is_missing_error(r->Err_0, "series"@)
        } else if !optional_readable::<u64>(params, "no"@) {
            r is Err && param_error::<u64>(params, "no"@, r->Err_0)
        } else {
            match crate::params::flag_spec(params.get_spec("unsorted"@), false) {
                None => r is Err && param_error::<bool>(params, "unsorted"@, r->Err_0),
                Some(u) => r matches Ok(req) && {
                    &&& req.library == library->Some_0
                    &&& reads_as(params, "media"@, req.media)
                    &&& reads_as(params, "series"@, req.series)
                    &&& optional_reads_as(params, "no"@, req.no)
                    &&& req.unsorted == u
                },
            }
        },
{
    let library = require_library(library)?;
    let media: u64 = get_param(params, "media")?;
    let series: String = get_param(params, "series")?;
    let no: Option<u64> = get_param_option(params, "no")?;
    let unsorted = get_param_bool(params, "unsorted")?;
    Ok(SeriesAddRequest { library, media, series, no, unsorted })
}

/// What renumbering a media in a series needs.
pub struct SeriesNumberRequest {
    pub library: Uuid,
    pub media: u64,
    pub series: String,
    pub no: u64,
    pub insert: bool,
}

/// Reads `media`, `series`, the required number `no` and the `insert` flag,
/// in that order.
pub fn series_number_request(library: Option<Uuid>, params: &Params) -> (r: Result<
    SeriesNumberRequest,
>)
    ensures
        library is None ==> (r is Err && is_missing_error(r->Err_0, "Library"@)),
        library is Some ==> if !readable::<u64>(params, "media"@) {
            r is Err && param_error::<u64>(params, "media"@, r->Err_0)
        } else if !readable::<String>(params, "series"@) {
            r is Err && is_missing_error(r->Err_0, "series"@)
        } else if !readable::<u64>(params, "no"@) {
            r is Err && param_error::<u64>(params, "no"@, r->Err_0)
        } else {
            match crate::params::flag_spec(params.get_spec("insert"@), false) {
                None => r is Err && param_error::<bool>(params, "insert"@, r->Err_0),
                Some(b) => r matches Ok(req) && {
                    &&& req.library == library->Some_0
                    &&& reads_as(params, "media"@, req.media)
                    &&& reads_as(params, "series"@, req.series)
                    &&& reads_as(params, "no"@, req.no)
                    &&& req.insert == b
                },
            }
        },
{
    let library = require_library(library)?;
    let media: u64 = get_param(params, "media")?;
    let series: String = get_param(params, "series")?;
    let no: u64 = get_param(params, "no")?;
    let insert = get_param_bool(params, "insert")?;
    Ok(SeriesNumberRequest { library, media, series, no, insert })
}

/// What the routes that tie a media to a series or a tag need: the library,
/// the `media` and the group named by `group_key`, read in that order.
pub fn membership_request(library: Option<Uuid>, params: &Params, group_key: &str) -> (r: Result<
    (Uuid, u64, String),
>)
    ensures
        library is None ==> (r is Err && is_missing_error(r->Err_0, "Library"@)),
        library is Some ==> if !readable::<u64>(params, "media"@) {
            r is Err && param_error::<u64>(params, "media"@, r->Err_0)
        } else {
            match params.get_spec(group_key@) {
                None => r is Err && is_missing_error(r->Err_0, group_key@),
                Some(g) => r matches Ok((l, m, group)) && l == library->Some_0 && reads_as(
                    params,
                    "media"@,
                    m,
                ) && group@ == g,
            }
        },
{
    let library = require_library(library)?;
    let media: u64 = get_param(params, "media")?;
    let group: String = get_param(params, group_key)?;
    Ok((library, media, group))
}

} // verus!
