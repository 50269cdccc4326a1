use shiromana_server::content::{bytes_message, guess_media_kind, media_kind_of_top_level};
use shiromana_server::dispatch::prepare_request;
use shiromana_server::error::Error;
use shiromana_server::ids::Uuid;
use shiromana_server::message::{ServerApiStatus, ServerMessage};
use shiromana_server::params::Params;
use shiromana_server::registry::Registry;
use shiromana_server::routes::{
    library_close, library_create_request, library_open_check, media_add_finish, media_add_kind,
    media_add_request, opened_handle, register_opened, require_library, caption_request,
    membership_request, series_add_request, series_number_request, target_request,
};

fn params(pairs: &[(&str, &str)]) -> Params {
    Params::new(pairs.iter().map(|(k, v)| (k.to_string(), v.to_string())).collect())
}

fn id(n: u128) -> Uuid {
    Uuid { value: n }
}

fn open_one() -> Registry<u32> {
    let mut reg = Registry::new();
    reg.insert(id(1), 0);
    reg
}

#[test]
fn register_then_lookup_and_remove() {
    let mut reg: Registry<&str> = Registry::new();
    assert_eq!(reg.insert(id(1), "one"), None);
    assert_eq!(reg.get(id(1)), Some(&"one"));
    assert!(reg.contains(id(1)));
    assert_eq!(reg.remove(id(1)), Some("one"));
    assert_eq!(reg.get(id(1)), None);
    assert_eq!(reg.remove(id(1)), None);
    assert_eq!(reg.len(), 0);
}

#[test]
fn handles_are_changed_in_place() {
    let mut reg: Registry<u32> = Registry::new();
    reg.insert(id(2), 10);
    match opened_handle(&mut reg, id(2)) {
        Ok(h) => *h += 5,
        Err(_) => panic!("library 2 is open"),
    }
    assert_eq!(reg.get(id(2)), Some(&15));
    assert!(matches!(opened_handle(&mut reg, id(3)), Err(Error::LibraryNotOpened(x)) if x == id(3)));
}

#[test]
fn open_registers_and_stamps_library() {
    let mut reg: Registry<u32> = Registry::new();
    let (_, msg) = match prepare_request("library/open", &params(&[("path", "/libs/a")])) {
        Ok(v) => v,
        Err(_) => panic!("parameters are well formed"),
    };
    let (msg, path) = match library_open_check(msg, "/libs/a".to_string(), true) {
        Ok(v) => v,
        Err(_) => panic!("path is a folder"),
    };
    assert_eq!(path, "/libs/a");
    let r = register_opened(&mut reg, msg, id(9), 1);
    assert_eq!(r.status, ServerApiStatus::Success);
    assert_eq!(r.library, Some(id(9)));
    assert_eq!(r.api, "library/open");
    let again = register_opened(&mut reg, ServerMessage::default(), id(9), 2);
    assert_eq!(again.library, Some(id(9)));
    assert_eq!(reg.get(id(9)), Some(&1));
    assert_eq!(reg.len(), 1);
}

#[test]
fn open_at_missing_folder_fails_under_library() {
    let msg = ServerMessage::default().with_api("library/open");
    let r = match library_open_check(msg, "/no/such".to_string(), false) {
        Ok(_) => panic!("path is no folder"),
        Err(m) => m,
    };
    assert_eq!(r.status, ServerApiStatus::Failed);
    let e = r.error.unwrap();
    assert_eq!(e.len(), 1);
    assert_eq!(e[0].0, "library");
    assert!(e[0].1.contains("/no/such"));
}

#[test]
fn close_twice_reports_not_opened() {
    let mut reg: Registry<u32> = Registry::new();
    reg.insert(id(5), 1);
    let first = library_close(&mut reg, Some(id(5)), ServerMessage::default().with_api("library/close"));
    assert_eq!(first.ok().map(|m| m.api), Some("library/close".to_string()));
    let second = library_close(&mut reg, Some(id(5)), ServerMessage::default());
    assert!(matches!(second, Err(Error::LibraryNotOpened(x)) if x == id(5)));
    assert_eq!(reg.len(), 0);
    let none = library_close(&mut reg, None, ServerMessage::default());
    assert!(matches!(none, Err(Error::NoParam(k)) if k == "library"));
}

#[test]
fn media_add_to_unopened_library() {
    let mut reg: Registry<u32> = Registry::new();
    let lib = require_library(Some(id(77))).ok().unwrap();
    let r = opened_handle(&mut reg, lib);
    assert!(matches!(r, Err(Error::LibraryNotOpened(x)) if x == id(77)));
    assert!(matches!(require_library(None), Err(Error::NoParam(k)) if k == "Library"));
}

#[test]
fn media_add_reads_all_parameters_first() {
    let p = params(&[("path", "/m/a.png"), ("caption", "c"), ("delete", "true"), ("type", "image")]);
    let req = media_add_request(&open_one(), Some(id(1)), &p, true).ok().unwrap();
    assert_eq!(req.path, "/m/a.png");
    assert_eq!(req.kind, Some("image".to_string()));
    assert_eq!(req.caption, Some("c".to_string()));
    assert_eq!(req.comment, None);
    assert!(req.delete);
    let bad = params(&[("path", "/m/a.png"), ("delete", "yes")]);
    assert!(matches!(media_add_request(&open_one(), Some(id(1)), &bad, true), Err(Error::ParamInvalid { .. })));
    match media_add_request(&open_one(), Some(id(1)), &p, false) {
        Err(Error::NotExisted { got, field, expect }) => {
            assert_eq!(got, "/m/a.png");
            assert_eq!(field, "path");
            assert_eq!(expect, "File");
        }
        _ => panic!("path is no file"),
    }
    assert!(matches!(media_add_request(&open_one(), None, &p, true), Err(Error::NoParam(_))));
}

#[test]
fn media_add_with_failed_removal_is_partial_success() {
    let msg = ServerMessage::default().with_api("media/add");
    let r = media_add_finish(msg, id(1), 12, "/m/a.png", Some(Err("permission denied".to_string())));
    assert_eq!(r.status, ServerApiStatus::PartialSuccess);
    assert_eq!(r.media, Some(12));
    assert_eq!(r.library, Some(id(1)));
    assert_eq!(
        r.error,
        Some(vec![(
            "Media".to_string(),
            "Failed to remove original file `/m/a.png` due to permission denied.".to_string()
        )])
    );
    let ok = media_add_finish(ServerMessage::default(), id(1), 12, "/m/a.png", Some(Ok(())));
    assert_eq!(ok.status, ServerApiStatus::Success);
    assert_eq!(ok.media, Some(12));
    assert_eq!(ok.error, None);
}

#[test]
fn media_kinds_from_contents() {
    let png = [0x89u8, b'P', b'N', b'G', 0x0D, 0x0A, 0x1A, 0x0A, 0, 0, 0, 0];
    assert_eq!(guess_media_kind(&png), Some("image".to_string()));
    assert_eq!(media_kind_of_top_level(Some("video")), "video");
    assert_eq!(media_kind_of_top_level(Some("application")), "other");
    assert_eq!(media_kind_of_top_level(None), "other");
    let p = params(&[("path", "/m/a")]);
    let req = media_add_request(&open_one(), Some(id(1)), &p, true).ok().unwrap();
    let (_, kind) = media_add_kind(ServerMessage::default(), &req, &png).ok().unwrap();
    assert_eq!(kind, "image");
}

#[test]
fn create_needs_fresh_path_and_name() {
    let p = params(&[("path", "/l"), ("name", "n"), ("master", "me")]);
    let req = library_create_request(&p, false).ok().unwrap();
    assert_eq!(req.name, "n");
    assert_eq!(req.master, Some("me".to_string()));
    assert_eq!(req.media_folder, None);
    assert!(matches!(library_create_request(&p, true), Err(Error::AlreadyExisted { .. })));
    let no_name = params(&[("path", "/l")]);
    assert!(matches!(library_create_request(&no_name, false), Err(Error::NoParam(k)) if k == "name"));
}

#[test]
fn bytes_go_out_as_base64() {
    let m = bytes_message(ServerMessage::default(), b"hello");
    assert_eq!(m.result, Some("aGVsbG8=".to_string()));
    assert_eq!(m.format, Some("base64".to_string()));
}

#[test]
fn target_requests_read_library_then_key() {
    let p = params(&[("id", "12")]);
    let r = target_request::<u64>(Some(id(4)), &p, "id").ok().unwrap();
    assert_eq!(r, (id(4), 12));
    assert!(matches!(target_request::<u64>(None, &p, "id"), Err(Error::NoParam(k)) if k == "Library"));
    let bad = params(&[("id", "twelve")]);
    assert!(matches!(
        target_request::<u64>(Some(id(4)), &bad, "id"),
        Err(Error::ParamInvalid { got, .. }) if got == "twelve"
    ));
    assert!(matches!(target_request::<String>(Some(id(4)), &p, "tag"), Err(Error::NoParam(k)) if k == "tag"));
}

#[test]
fn caption_requests() {
    let p = params(&[("caption", "holiday"), ("comment", "2019")]);
    let (l, caption, comment) = caption_request(Some(id(1)), &p).ok().unwrap();
    assert_eq!(l, id(1));
    assert_eq!(caption, "holiday");
    assert_eq!(comment, Some("2019".to_string()));
    assert!(matches!(caption_request(Some(id(1)), &params(&[])), Err(Error::NoParam(k)) if k == "caption"));
}

#[test]
fn series_requests() {
    let p = params(&[("media", "3"), ("series", "s1"), ("no", "2"), ("unsorted", "true")]);
    let add = series_add_request(Some(id(1)), &p).ok().unwrap();
    assert_eq!((add.media, add.series.as_str(), add.no, add.unsorted), (3, "s1", Some(2), true));
    let p2 = params(&[("media", "3"), ("series", "s1")]);
    let add = series_add_request(Some(id(1)), &p2).ok().unwrap();
    assert_eq!((add.no, add.unsorted), (None, false));
    assert!(matches!(series_number_request(Some(id(1)), &p2), Err(Error::NoParam(k)) if k == "no"));
    let p3 = params(&[("media", "3"), ("series", "s1"), ("no", "9"), ("insert", "false")]);
    let num = series_number_request(Some(id(1)), &p3).ok().unwrap();
    assert_eq!((num.no, num.insert), (9, false));
    let bad = params(&[("media", "3"), ("series", "s1"), ("no", "9"), ("insert", "1")]);
    assert!(matches!(series_number_request(Some(id(1)), &bad), Err(Error::ParamInvalid { .. })));
}

#[test]
fn membership_requests() {
    let p = params(&[("media", "8"), ("tag", "t")]);
    assert_eq!(membership_request(Some(id(2)), &p, "tag").ok(), Some((id(2), 8, "t".to_string())));
    assert!(matches!(membership_request(Some(id(2)), &p, "series"), Err(Error::NoParam(k)) if k == "series"));
    assert!(matches!(
        membership_request(Some(id(2)), &params(&[("tag", "t")]), "tag"),
        Err(Error::NoParam(k)) if k == "media"
    ));
}

#[test]
fn snapshot_lists_each_open_library_once() {
    let mut reg: Registry<u32> = Registry::new();
    reg.insert(id(1), 1);
    reg.insert(id(2), 2);
    reg.insert(id(1), 3);
    let mut ids: Vec<u128> = reg.ids().iter().map(|u| u.value).collect();
    ids.sort();
    assert_eq!(ids, vec![1, 2]);
    reg.clear();
    assert!(reg.ids().is_empty());
}

#[test]
fn media_add_reports_unopened_library_before_reading_the_file() {
    let p = params(&[("path", "/m/unknown.bin")]);
    let empty: Registry<u32> = Registry::new();
    assert!(matches!(
        media_add_request(&empty, Some(id(4)), &p, true),
        Err(Error::LibraryNotOpened(x)) if x == id(4)
    ));
    let bad = params(&[("path", "/m/unknown.bin"), ("delete", "maybe")]);
    assert!(matches!(media_add_request(&empty, Some(id(4)), &bad, true), Err(Error::ParamInvalid { .. })));
}
