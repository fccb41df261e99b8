//! Field-codec behaviour on concrete wire values.

use nexusmods::codec::{
    decode_category, decode_category_name, decode_endorse_status, decode_epoch,
    decode_iso_instant, deserialize, encode_category, parse_rate_limiting, parse_u16, serialize,
};
use nexusmods::json::JsonValue;
use nexusmods::request::{Category, CategoryName, EndorseStatus, Limited};

#[test]
fn category_decodes_every_nonnegative_integer() {
    for n in [0u64, 1, 7, 42, u64::MAX] {
        match decode_category(&JsonValue::UInt(n)) {
            Some(Category::Parent(m)) => assert_eq!(m, n),
            other => panic!("expected parent {n}, got {other:?}"),
        }
    }
}

#[test]
fn category_decodes_false_to_no_parent() {
    assert_eq!(decode_category(&JsonValue::Bool(false)), Some(Category::NoParent));
}

#[test]
fn category_rejects_true_and_negative_integers() {
    assert_eq!(decode_category(&JsonValue::Bool(true)), None);
    assert_eq!(decode_category(&JsonValue::Int(-1)), None);
    assert_eq!(decode_category(&JsonValue::Int(-42)), None);
    assert_eq!(decode_category(&JsonValue::Null), None);
    assert_eq!(decode_category(&JsonValue::Str(String::from("7"))), None);
    assert_eq!(decode_category(&JsonValue::Float), None);
}

#[test]
fn category_round_trips_through_encoding() {
    let parent = decode_category(&JsonValue::UInt(9)).unwrap();
    match encode_category(&parent) {
        JsonValue::UInt(n) => assert_eq!(n, 9),
        other => panic!("expected the integer back, got {other:?}"),
    }
    let none = decode_category(&JsonValue::Bool(false)).unwrap();
    match encode_category(&none) {
        JsonValue::Bool(b) => assert!(!b),
        other => panic!("expected false back, got {other:?}"),
    }
}

#[test]
fn endorse_status_accepts_only_the_exact_tag() {
    let endorsed = decode_endorse_status(&JsonValue::Str(String::from("Endorsed")));
    assert_eq!(endorsed, EndorseStatus::Endorsed);
}

#[test]
fn endorse_status_falls_back_on_any_other_value() {
    let cases = vec![
        JsonValue::Str(String::from("Abstained")),
        JsonValue::Str(String::from("endorsed")),
        JsonValue::Str(String::from("")),
        JsonValue::Null,
        JsonValue::Bool(true),
        JsonValue::UInt(1),
        JsonValue::Array(vec![]),
        JsonValue::Object(vec![]),
    ];
    for v in &cases {
        assert_eq!(decode_endorse_status(v), EndorseStatus::NotEndorsed);
    }
}

#[test]
fn category_name_decodes_the_six_tags() {
    let pairs = vec![
        ("MAIN", CategoryName::Main),
        ("UPDATE", CategoryName::Update),
        ("OPTIONAL", CategoryName::Optional),
        ("OLD_VERSION", CategoryName::OldVersion),
        ("MISCELLANEOUS", CategoryName::Miscellaneous),
        ("ARCHIVED", CategoryName::Archived),
    ];
    for (tag, want) in pairs {
        assert_eq!(decode_category_name(&JsonValue::Str(String::from(tag))), Some(want));
    }
    assert_eq!(decode_category_name(&JsonValue::Str(String::from("main"))), None);
    assert_eq!(decode_category_name(&JsonValue::UInt(1)), None);
}

#[test]
fn epoch_decodes_integers_that_fit() {
    assert_eq!(decode_epoch(&JsonValue::UInt(1704067200)), Some(1704067200));
    assert_eq!(decode_epoch(&JsonValue::Int(-1)), Some(-1));
    assert_eq!(decode_epoch(&JsonValue::UInt(u64::MAX)), None);
    assert_eq!(decode_epoch(&JsonValue::Str(String::from("0"))), None);
    assert_eq!(decode_epoch(&JsonValue::Float), None);
}

#[test]
fn iso_instant_decodes_a_wellformed_date() {
    let v = JsonValue::Str(String::from("2024-01-01T00:00:00+00:00"));
    assert_eq!(decode_iso_instant(&v), Some(1704067200));
    let noon = JsonValue::Str(String::from("2021-01-01T12:00:00+00:00"));
    assert_eq!(decode_iso_instant(&noon), Some(1609502400));
    let bad = JsonValue::Str(String::from("yesterday"));
    assert_eq!(decode_iso_instant(&bad), None);
    assert_eq!(decode_iso_instant(&JsonValue::UInt(3)), None);
}

#[test]
fn optional_epoch_codec_handles_null_and_integers() {
    assert_eq!(deserialize(&JsonValue::Null), Some(None));
    assert_eq!(deserialize(&JsonValue::UInt(12)), Some(Some(12)));
    assert_eq!(deserialize(&JsonValue::Int(-12)), Some(Some(-12)));
    assert_eq!(deserialize(&JsonValue::Str(String::from("12"))), None);
    match serialize(&Some(12)) {
        JsonValue::UInt(n) => assert_eq!(n, 12),
        other => panic!("expected an integer, got {other:?}"),
    }
    match serialize(&Some(-5)) {
        JsonValue::Int(n) => assert_eq!(n, -5),
        other => panic!("expected an integer, got {other:?}"),
    }
    assert!(matches!(serialize(&None), JsonValue::Null));
}

#[test]
fn parse_u16_reads_decimal_counters() {
    assert_eq!(parse_u16("0"), Some(0));
    assert_eq!(parse_u16("2500"), Some(2500));
    assert_eq!(parse_u16("65535"), Some(65535));
    assert_eq!(parse_u16("65536"), None);
    assert_eq!(parse_u16(""), None);
    assert_eq!(parse_u16("12a"), None);
    assert_eq!(parse_u16("-1"), None);
    assert_eq!(parse_u16("999999999999"), None);
}

#[test]
fn rate_limit_snapshot_parses_the_six_headers() {
    let snap = parse_rate_limiting(
        "100",
        "96",
        "2024-01-01T00:00:00+00:00",
        "2500",
        "2400",
        "2021-01-01T12:00:00+00:00",
    )
    .unwrap();
    assert_eq!(snap.limit(Limited::Hourly), 100);
    assert_eq!(snap.remaining(Limited::Hourly), 96);
    assert_eq!(snap.reset(Limited::Hourly), 1704067200);
    assert_eq!(snap.limit(Limited::Daily), 2500);
    assert_eq!(snap.remaining(Limited::Daily), 2400);
    assert_eq!(snap.reset(Limited::Daily), 1609502400);
}

#[test]
fn rate_limit_snapshot_rejects_a_bad_counter() {
    let bad = parse_rate_limiting(
        "many",
        "96",
        "2024-01-01T00:00:00+00:00",
        "2500",
        "2400",
        "2021-01-01T12:00:00+00:00",
    );
    assert!(bad.is_none());
    let bad_reset = parse_rate_limiting("100", "96", "soon", "2500", "2400", "later");
    assert!(bad_reset.is_none());
}
