//! Request descriptions: methods, path segments, and parameters.

use nexusmods::api::{
    api_key_acceptable, endorsements_request, game_request, games_request, mod_file_request,
    mod_files_request, track_mod_request, tracked_mods_request, untrack_mod_request,
    updated_during_request, u64_to_string, validate_request, HttpMethod,
};
use nexusmods::api::track_mod_response;
use nexusmods::err::PostModStatus;
use nexusmods::request::{CategoryName, ModId, TimePeriod};

fn confirmed_id(id: u64) -> ModId {
    match track_mod_response(200, id, "").unwrap() {
        PostModStatus::AlreadyTracking(m) => m,
        PostModStatus::SuccessfullyTracked(m) => m,
    }
}

#[test]
fn formats_decimal_numbers() {
    assert_eq!(u64_to_string(0), "0");
    assert_eq!(u64_to_string(7), "7");
    assert_eq!(u64_to_string(10), "10");
    assert_eq!(u64_to_string(2049), "2049");
    assert_eq!(u64_to_string(u64::MAX), "18446744073709551615");
}

#[test]
fn accepts_only_header_safe_keys() {
    assert!(api_key_acceptable("0123456789abcdef"));
    assert!(api_key_acceptable(""));
    assert!(!api_key_acceptable("line\nbreak"));
    assert!(!api_key_acceptable("nul\0byte"));
    assert!(api_key_acceptable("tab\tis fine"));
}

#[test]
fn validate_request_shape() {
    let r = validate_request();
    assert_eq!(r.method, HttpMethod::Get);
    assert_eq!(r.path, vec![String::from("users"), String::from("validate")]);
    assert!(r.query.is_empty());
    assert!(r.form.is_empty());
}

#[test]
fn tracked_mods_request_shape() {
    let r = tracked_mods_request();
    assert_eq!(r.method, HttpMethod::Get);
    assert_eq!(r.path, vec![String::from("user"), String::from("tracked_mods")]);
}

#[test]
fn track_mod_request_shape() {
    let r = track_mod_request("skyrim", 2049);
    assert_eq!(r.method, HttpMethod::Post);
    assert_eq!(r.path, vec![String::from("user"), String::from("tracked_mods")]);
    assert_eq!(r.query, vec![(String::from("domain_name"), String::from("skyrim"))]);
    assert_eq!(r.form, vec![(String::from("mod_id"), String::from("2049"))]);
}

#[test]
fn untrack_mod_request_shape() {
    let r = untrack_mod_request("skyrim", confirmed_id(9));
    assert_eq!(r.method, HttpMethod::Delete);
    assert_eq!(r.form, vec![(String::from("mod_id"), String::from("9"))]);
}

#[test]
fn endorsements_request_shape() {
    let r = endorsements_request();
    assert_eq!(r.method, HttpMethod::Get);
    assert_eq!(r.path, vec![String::from("user"), String::from("endorsements")]);
}

#[test]
fn updated_during_request_shape() {
    let r = updated_during_request("skyrim", TimePeriod::Week);
    assert_eq!(r.method, HttpMethod::Get);
    assert_eq!(
        r.path,
        vec![
            String::from("games"),
            String::from("skyrim"),
            String::from("mods"),
            String::from("updated")
        ]
    );
    assert_eq!(r.query, vec![(String::from("period"), String::from("1w"))]);
}

#[test]
fn games_and_game_request_shapes() {
    let all = games_request();
    assert_eq!(all.path, vec![String::from("games")]);
    let one = game_request("morrowind");
    assert_eq!(one.path, vec![String::from("games"), String::from("morrowind")]);
}

#[test]
fn mod_files_request_shape() {
    let r = mod_files_request("skyrim", confirmed_id(2049), Some(CategoryName::OldVersion));
    assert_eq!(
        r.path,
        vec![
            String::from("games"),
            String::from("skyrim"),
            String::from("mods"),
            String::from("2049"),
            String::from("files")
        ]
    );
    assert_eq!(r.query, vec![(String::from("category"), String::from("old_version"))]);
    let bare = mod_files_request("skyrim", confirmed_id(2049), None);
    assert!(bare.query.is_empty());
}

#[test]
fn mod_file_request_shape() {
    let r = mod_file_request("skyrim", confirmed_id(2049), 470);
    assert_eq!(
        r.path,
        vec![
            String::from("games"),
            String::from("skyrim"),
            String::from("mods"),
            String::from("2049"),
            String::from("files"),
            String::from("470")
        ]
    );
}

#[test]
fn category_tags_and_periods() {
    assert_eq!(CategoryName::Main.to_header_str(), "main");
    assert_eq!(CategoryName::Miscellaneous.to_header_str(), "miscellaneous");
    assert_eq!(TimePeriod::Day.as_str(), "1d");
    assert_eq!(TimePeriod::Month.as_str(), "1m");
    assert_eq!(TimePeriod::Day.duration_hours(), 24);
    assert_eq!(TimePeriod::Week.duration_hours(), 168);
    assert_eq!(TimePeriod::Month.duration_hours(), 5208);
}
