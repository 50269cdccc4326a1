use shiromana_server::dispatch::{finish_request, prepare_request, respond};
use shiromana_server::error::Error;
use shiromana_server::ids::Uuid;
use shiromana_server::message::{ServerApiStatus, ServerMessage};
use shiromana_server::params::Params;

fn params(pairs: &[(&str, &str)]) -> Params {
    Params::new(pairs.iter().map(|(k, v)| (k.to_string(), v.to_string())).collect())
}

const LIB: &str = "67e55044-10b1-426f-9247-bb680e5fe0c8";

#[test]
fn default_envelope_compact_text() {
    let m = ServerMessage::default().without_pretty_json();
    assert_eq!(m.to_json_string(), "{\"api\":\"\",\"status\":\"Success\"}\n");
}

#[test]
fn default_envelope_pretty_text() {
    let m = ServerMessage::default().with_api("status");
    assert_eq!(
        m.to_json_string(),
        "{\n  \"api\": \"status\",\n  \"status\": \"Success\"\n}\n"
    );
}

#[test]
fn error_envelope_pretty_layout() {
    let m = ServerMessage::from_single_error("at", "de\"tail", None, Some(7));
    assert_eq!(
        m.to_json_string(),
        "{\n  \"api\": \"\",\n  \"status\": \"Failed\",\n  \"error\": [\n    [\n      \"at\",\n      \"de\\\"tail\"\n    ]\n  ],\n  \"media\": 7\n}\n"
    );
}

#[test]
fn envelope_round_trip_through_json() {
    let id = Uuid::parse(LIB).unwrap();
    let m = ServerMessage::default()
        .with_api("media/add")
        .with_library(id)
        .with_media(18446744073709551615)
        .with_result("line\nbreak \u{1} \\ done".to_string())
        .with_format("json")
        .with_single_error_but_partial_success("Media", "oops", Some(id), Some(3));
    for pretty in [true, false] {
        let m = if pretty { m.duplicate().with_pretty_json() } else { m.duplicate().without_pretty_json() };
        let text = m.to_json_string();
        let v: serde_json::Value = serde_json::from_str(&text).unwrap();
        assert_eq!(v["api"], "media/add");
        assert_eq!(v["status"], "PartialSuccess");
        assert_eq!(v["error"][0][0], "Media");
        assert_eq!(v["error"][0][1], "oops");
        assert_eq!(v["error"].as_array().unwrap().len(), 1);
        assert_eq!(v["library"], LIB);
        assert_eq!(v["media"], 3);
        assert_eq!(v["result"], "line\nbreak \u{1} \\ done");
        assert_eq!(v["format"], "json");
        assert!(v.get("is_pretty").is_none());
        assert!(v.get("data").is_none());
    }
}

#[test]
fn envelope_data_members_are_written() {
    let m = ServerMessage::default()
        .without_pretty_json()
        .with_data("k", "v")
        .with_data("n", "1")
        .with_data("k", "w");
    assert_eq!(m.data.len(), 2);
    assert_eq!(
        m.to_json_string(),
        "{\"api\":\"\",\"status\":\"Success\",\"data\":{\"k\":\"w\",\"n\":\"1\"}}\n"
    );
}

#[test]
fn builders_keep_other_fields() {
    let m = ServerMessage::default().with_api("x").with_media(5).without_pretty_json();
    let e = m.with_single_error("loc", "why", None, None);
    assert_eq!(e.api, "x");
    assert_eq!(e.status, ServerApiStatus::Failed);
    assert_eq!(e.media, None);
    assert!(!e.is_pretty);
    assert_eq!(e.error, Some(vec![("loc".to_string(), "why".to_string())]));
    let again = e.with_single_error("second", "only", None, None);
    assert_eq!(again.error, Some(vec![("second".to_string(), "only".to_string())]));
}

#[test]
fn success_and_partial_success_answer_200_failed_400() {
    assert_eq!(respond(&ServerMessage::default()).status, 200);
    let p = ServerMessage::default().with_single_error_but_partial_success("a", "b", None, None);
    assert_eq!(respond(&p).status, 200);
    let f = ServerMessage::default().with_single_error("a", "b", None, None);
    assert_eq!(respond(&f).status, 400);
}

#[test]
fn prepare_reads_library_and_layout() {
    let p = params(&[("library", LIB), ("pretty", "false")]);
    let (lib, msg) = match prepare_request("library/open", &p) {
        Ok(v) => v,
        Err(_) => panic!("library text is valid"),
    };
    assert_eq!(lib, Some(Uuid::parse(LIB).unwrap()));
    assert_eq!(msg.api, "library/open");
    assert!(!msg.is_pretty);
    assert_eq!(msg.library, lib);
    assert_eq!(msg.status, ServerApiStatus::Success);
}

#[test]
fn prepare_defaults_to_pretty_without_library() {
    let p = params(&[("path", "/x")]);
    let (lib, msg) = match prepare_request("status", &p) {
        Ok(v) => v,
        Err(_) => panic!("no library given"),
    };
    assert_eq!(lib, None);
    assert!(msg.is_pretty);
}

#[test]
fn prepare_rejects_malformed_library() {
    let p = params(&[("library", "not-a-uuid"), ("pretty", "false")]);
    let resp = match prepare_request("media/get", &p) {
        Ok(_) => panic!("library text is malformed"),
        Err(r) => r,
    };
    assert_eq!(resp.status, 400);
    let v: serde_json::Value = serde_json::from_str(&resp.body).unwrap();
    assert_eq!(v["status"], "Failed");
    assert_eq!(v["api"], "media/get");
    assert_eq!(v["error"][0][0], "parameter");
    let reason = uuid::Uuid::parse_str("not-a-uuid").unwrap_err().to_string();
    assert_eq!(
        v["error"][0][1],
        format!("Parameter `library` is not a valid Uuid identifier. Err: {}", reason)
    );
}

#[test]
fn handler_error_becomes_failed_action_envelope() {
    let id = Uuid::parse(LIB).unwrap();
    let base = ServerMessage::default().with_api("media/add").with_library(id);
    let resp = finish_request(base, Some(id), Err(Error::LibraryNotOpened(id)));
    assert_eq!(resp.status, 400);
    let v: serde_json::Value = serde_json::from_str(&resp.body).unwrap();
    assert_eq!(v["status"], "Failed");
    assert_eq!(v["library"], LIB);
    assert_eq!(v["error"][0][0], "action");
    assert_eq!(v["error"][0][1], format!("Library `{}` is not opened.", LIB));
}

#[test]
fn handler_envelope_goes_out_unchanged() {
    let m = ServerMessage::default().with_api("x").with_media(4);
    let text = m.to_json_string();
    let resp = finish_request(ServerMessage::default(), None, Ok(m));
    assert_eq!(resp.status, 200);
    assert_eq!(resp.body, text);
}

#[test]
fn prepare_rejects_malformed_pretty_flag() {
    let p = params(&[("pretty", "FALSE"), ("library", LIB)]);
    let resp = match prepare_request("status", &p) {
        Ok(_) => panic!("flag is malformed"),
        Err(r) => r,
    };
    assert_eq!(resp.status, 400);
    let v: serde_json::Value = serde_json::from_str(&resp.body).unwrap();
    assert_eq!(v["api"], "status");
    assert_eq!(v["status"], "Failed");
    assert_eq!(v["error"][0][0], "parameter");
    assert_eq!(v["error"][0][1], "Param `pretty` with value `FALSE` cannot be parsed to `bool`.");
    assert!(v.get("library").is_none());
    assert!(resp.body.starts_with("{\n  \"api\""));
}
