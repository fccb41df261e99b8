//! The remaining entities: full mod records, their endorsement state, and
//! the error unions' variants.

use nexusmods::codec::decode_has_endorsed;
use nexusmods::decode::decode_invalid_game;
use nexusmods::err::{DeleteModError, TrackModError, ValidateError};
use nexusmods::json::JsonValue;
use nexusmods::request::{EndorsementInfo, GameMod, HasEndorsed};

fn sample_endorsement_info(status: HasEndorsed) -> EndorsementInfo {
    EndorsementInfo { endorse_status: status, timestamp: Some(1609502400), version: None }
}

#[test]
fn endorsement_info_reads_back_its_fields() {
    let info = sample_endorsement_info(HasEndorsed::Endorsed);
    assert_eq!(info.status(), HasEndorsed::Endorsed);
    assert!(info.has_endorsed());
    assert_eq!(info.endorsed_at(), Some(1609502400));
    assert_eq!(info.endorsed_version(), None);
    let undecided = sample_endorsement_info(HasEndorsed::Undecided);
    assert!(!undecided.has_endorsed());
}

#[test]
fn has_endorsed_decodes_its_two_tags() {
    let endorsed = JsonValue::Str(String::from("Endorsed"));
    let undecided = JsonValue::Str(String::from("Undecided"));
    assert_eq!(decode_has_endorsed(&endorsed), Some(HasEndorsed::Endorsed));
    assert_eq!(decode_has_endorsed(&undecided), Some(HasEndorsed::Undecided));
    assert_eq!(decode_has_endorsed(&JsonValue::Str(String::from("Abstained"))), None);
    assert_eq!(decode_has_endorsed(&JsonValue::Null), None);
}

#[test]
fn game_mod_reads_back_its_fields() {
    let record = GameMod {
        name: String::from("A Mod"),
        summary: String::from("short"),
        description: String::from("long"),
        picture_url: String::from("https://img.example.com/1.png"),
        mod_downloads: 10,
        mod_unique_downloads: 8,
        uid: 99,
        game_id: 110,
        allow_rating: true,
        domain_name: String::from("skyrim"),
        category_id: 4,
        version: String::from("2.0"),
        endorsement_count: 3,
        created_timestamp: 100,
        created_time: 100,
        updated_timestamp: 200,
        updated_time: 200,
        author: String::from("alice"),
        uploaded_by: String::from("alice"),
        uploaded_users_profile_url: String::from("https://example.com/alice"),
        contains_adult_content: false,
        status: String::from("published"),
        available: true,
        endorsement: sample_endorsement_info(HasEndorsed::Undecided),
    };
    assert_eq!(record.name(), "A Mod");
    assert_eq!(record.summary(), "short");
    assert_eq!(record.description(), "long");
    assert_eq!(record.mod_picture(), "https://img.example.com/1.png");
    assert_eq!(record.unique_downloads(), 8);
    assert_eq!(record.uid(), 99);
    assert_eq!(record.game_id(), 110);
    assert!(record.allow_rating());
    assert_eq!(record.domain_name(), "skyrim");
    assert_eq!(record.category_id(), 4);
    assert_eq!(record.version(), "2.0");
    assert_eq!(record.endorsements(), 3);
    assert_eq!(record.created_at(), 100);
    assert_eq!(record.updated_at(), 200);
    assert_eq!(record.author(), "alice");
    assert_eq!(record.uploaded_by(), "alice");
    assert_eq!(record.uploaded_by_profile_url(), "https://example.com/alice");
    assert!(!record.adult_content());
    assert!(record.available());
    assert!(!record.endorsement().has_endorsed());
}

#[test]
fn transport_failures_are_their_own_kind() {
    let v = ValidateError::Transport(String::from("connection reset"));
    assert_ne!(v, ValidateError::Decode);
    let t = TrackModError::Transport(String::from("timed out"));
    assert_ne!(t, TrackModError::Decode);
}

#[test]
fn domain_error_statuses_with_malformed_bodies_are_decode_failures() {
    assert_eq!(
        nexusmods::api::track_mod_response(401, 7, "[]").unwrap_err(),
        TrackModError::Decode
    );
    assert_eq!(
        nexusmods::api::track_mod_response(404, 7, "{\"note\": 1}").unwrap_err(),
        TrackModError::Decode
    );
    assert_eq!(
        nexusmods::api::untrack_mod_response(404, "nonsense").unwrap_err(),
        DeleteModError::Decode
    );
}

#[test]
fn invalid_game_body_decodes_code_and_message() {
    let body = JsonValue::Object(vec![
        (String::from("code"), JsonValue::UInt(422)),
        (String::from("message"), JsonValue::Str(String::from("no such game"))),
    ]);
    let err = decode_invalid_game(&body).unwrap();
    assert_eq!(err.code, 422);
    assert_eq!(err.message(), "no such game");
    assert!(decode_invalid_game(&JsonValue::Object(vec![])).is_none());
}
