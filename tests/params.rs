use shiromana_server::error::Error;
use shiromana_server::ids::Uuid;
use shiromana_server::params::{get_param, get_param_bool, get_param_option, Params};
use shiromana_server::text::{decimal_text, parse_u64};

fn params(pairs: &[(&str, &str)]) -> Params {
    Params::new(pairs.iter().map(|(k, v)| (k.to_string(), v.to_string())).collect())
}

#[test]
fn require_u64_present() {
    let r: Result<u64, Error> = get_param(&params(&[("id", "42")]), "id");
    assert!(matches!(r, Ok(42)));
}

#[test]
fn require_u64_missing() {
    let r: Result<u64, Error> = get_param(&params(&[]), "id");
    match r {
        Err(Error::NoParam(k)) => assert_eq!(k, "id"),
        _ => panic!("expected a missing parameter"),
    }
}

#[test]
fn require_u64_invalid() {
    let r: Result<u64, Error> = get_param(&params(&[("id", "x")]), "id");
    match r {
        Err(Error::ParamInvalid { got, field, expect }) => {
            assert_eq!(got, "x");
            assert_eq!(field, "id");
            assert_eq!(expect, "u64");
        }
        _ => panic!("expected an invalid parameter"),
    }
}

#[test]
fn first_pair_wins() {
    let r: Result<String, Error> = get_param(&params(&[("a", "1"), ("a", "2")]), "a");
    assert_eq!(r.ok(), Some("1".to_string()));
}

#[test]
fn optional_absent_is_none_and_invalid_stays_error() {
    let r: Result<Option<u64>, Error> = get_param_option(&params(&[]), "no");
    assert!(matches!(r, Ok(None)));
    let r: Result<Option<u64>, Error> = get_param_option(&params(&[("no", "7")]), "no");
    assert!(matches!(r, Ok(Some(7))));
    let r: Result<Option<u64>, Error> = get_param_option(&params(&[("no", "-7")]), "no");
    assert!(matches!(r, Err(Error::ParamInvalid { .. })));
}

#[test]
fn flags_accept_only_literals() {
    assert!(matches!(get_param_bool(&params(&[]), "delete"), Ok(false)));
    assert!(matches!(get_param_bool(&params(&[("delete", "true")]), "delete"), Ok(true)));
    assert!(matches!(get_param_bool(&params(&[("delete", "false")]), "delete"), Ok(false)));
    match get_param_bool(&params(&[("delete", "TRUE")]), "delete") {
        Err(Error::ParamInvalid { got, field, expect }) => {
            assert_eq!(got, "TRUE");
            assert_eq!(field, "delete");
            assert_eq!(expect, "bool");
        }
        _ => panic!("expected an invalid flag"),
    }
}

#[test]
fn uuid_parameters() {
    let text = "550e8400-e29b-41d4-a716-446655440000";
    let r: Result<Uuid, Error> = get_param(&params(&[("series", text)]), "series");
    let id = r.ok().unwrap();
    assert_eq!(id.value, 0x550e8400e29b41d4a716446655440000u128);
    assert_eq!(id.to_text(), text);
    let bad: Result<Uuid, Error> = get_param(&params(&[("series", "zz")]), "series");
    assert!(matches!(bad, Err(Error::ParamInvalid { .. })));
}

#[test]
fn decimal_numbers_both_ways() {
    assert_eq!(decimal_text(0), "0");
    assert_eq!(decimal_text(1234567890), "1234567890");
    assert_eq!(decimal_text(u64::MAX), "18446744073709551615");
    assert_eq!(parse_u64("18446744073709551615"), Some(u64::MAX));
    assert_eq!(parse_u64("18446744073709551616"), None);
    assert_eq!(parse_u64("+12"), Some(12));
    assert_eq!(parse_u64("007"), Some(7));
    assert_eq!(parse_u64(""), None);
    assert_eq!(parse_u64("+"), None);
    assert_eq!(parse_u64("1 "), None);
    assert_eq!(parse_u64("١"), None);
}

#[test]
fn error_descriptions() {
    let e = Error::ParamInvalid { got: "x".into(), field: "id".into(), expect: "u64".into() };
    assert_eq!(e.describe(), "Param `id` with value `x` cannot be parsed to `u64`.");
    assert_eq!(Error::NoParam("path".into()).describe(), "Params path not provided.");
    let e = Error::NotExisted { got: "/x".into(), field: "path".into(), expect: "File".into() };
    assert_eq!(
        e.describe(),
        "Field path: `/x` is not existed on the disk of server. Or it is not a File."
    );
    let e = Error::AlreadyExisted { got: "/x".into(), field: "path".into() };
    assert_eq!(e.describe(), "Field path: `/x` is already existed on the disk of server.");
    assert_eq!(Error::LibraryError("bad".into()).describe(), "Library Error: bad");
    assert_eq!(Error::IOError("bad".into()).describe(), "IO Error: bad");
    assert_eq!(Error::SerializeError("bad".into()).describe(), "Serialize Error: bad");
    assert_eq!(Error::MultithreadError("bad".into()).describe(), "Multithrad Error: bad");
}
