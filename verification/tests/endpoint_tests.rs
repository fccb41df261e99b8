//! Per-endpoint status tables driven with mock status codes and bodies.

use nexusmods::api::{
    endorsements_response, game_response, mod_file_response, mod_files_response,
    track_mod_response, tracked_mods_response, untrack_mod_response, updated_during_response,
    validate_response,
};
use nexusmods::err::{
    DeleteModError, GameModError, PostModStatus, TrackModError, ValidateError,
};
use nexusmods::request::{Category, CategoryName, EndorseStatus};

const VALIDATE_BODY: &str = "{\
    \"user_id\": 1234,\
    \"key\": \"0123456789abcdef\",\
    \"name\": \"alice\",\
    \"is_premium?\": true,\
    \"is_supporter?\": false,\
    \"email\": \"alice@example.com\",\
    \"profile_url\": \"https://example.com/alice.png\",\
    \"is_premium\": true,\
    \"is_supporter\": true\
}";

#[test]
fn validate_ok_decodes_the_identity() {
    let user = validate_response(200, VALIDATE_BODY).unwrap();
    assert_eq!(user.name(), "alice");
    assert_eq!(user.email(), "alice@example.com");
    assert_eq!(user.url(), "https://example.com/alice.png");
    assert!(user.is_premium());
    assert!(!user.is_supporter());
}

#[test]
fn validate_unauthorized_carries_the_message() {
    let err = validate_response(401, "{\"message\": \"invalid key\"}").unwrap_err();
    match err {
        ValidateError::InvalidAPIKey(e) => assert_eq!(e.message(), "invalid key"),
        other => panic!("expected the API-key error, got {other:?}"),
    }
}

#[test]
fn validate_surprising_status_is_a_contract_violation() {
    let err = validate_response(500, "{}").unwrap_err();
    assert_eq!(err, ValidateError::ContractViolation(500));
}

#[test]
fn validate_not_observed_status_is_kept_apart() {
    let err = validate_response(422, "{}").unwrap_err();
    assert_eq!(err, ValidateError::NotObserved(422));
}

#[test]
fn validate_malformed_body_is_a_decode_failure() {
    assert_eq!(validate_response(200, "{\"user_id\": 1}").unwrap_err(), ValidateError::Decode);
    assert_eq!(validate_response(200, "not json").unwrap_err(), ValidateError::Decode);
    assert_eq!(validate_response(401, "[]").unwrap_err(), ValidateError::Decode);
}

#[test]
fn validate_accepts_the_plain_flag_aliases() {
    let body = "{\
        \"user_id\": 1,\
        \"key\": \"k\",\
        \"name\": \"n\",\
        \"is_premium_q\": false,\
        \"is_supporter_q\": true,\
        \"email\": \"e\",\
        \"profile_url\": \"u\",\
        \"is_premium\": true,\
        \"is_supporter\": true\
    }";
    let user = validate_response(200, body).unwrap();
    assert!(!user.is_premium());
    assert!(user.is_supporter());
}

#[test]
fn tracked_mods_ok_decodes_the_entries() {
    let body = "[\
        {\"mod_id\": 5, \"domain_name\": \"skyrim\"},\
        {\"mod_id\": 9, \"domain_name\": \"skyrim\"}\
    ]";
    let raw = tracked_mods_response(200, body).unwrap();
    let entries = raw.mods();
    assert_eq!(entries.len(), 2);
    assert_eq!(entries[0].id().id(), 5);
    assert_eq!(entries[0].domain_name(), "skyrim");
    assert_eq!(entries[1].id().id(), 9);
}

#[test]
fn tracked_mods_rejects_a_malformed_entry() {
    let body = "[{\"mod_id\": 5, \"domain_name\": \"skyrim\"}, {\"mod_id\": false}]";
    assert_eq!(tracked_mods_response(200, body).unwrap_err(), ValidateError::Decode);
}

#[test]
fn track_mod_ok_means_already_tracking() {
    match track_mod_response(200, 77, "") {
        Ok(PostModStatus::AlreadyTracking(id)) => assert_eq!(id.id(), 77),
        other => panic!("expected already-tracking, got {other:?}"),
    }
}

#[test]
fn track_mod_created_means_newly_tracked() {
    match track_mod_response(201, 77, "") {
        Ok(PostModStatus::SuccessfullyTracked(id)) => assert_eq!(id.id(), 77),
        other => panic!("expected newly-tracked, got {other:?}"),
    }
}

#[test]
fn track_mod_not_found_carries_the_message() {
    let err = track_mod_response(404, 77, "{\"message\": \"no such mod\"}").unwrap_err();
    match err {
        TrackModError::ModNotFound(e) => assert_eq!(e.message(), "no such mod"),
        other => panic!("expected mod-not-found, got {other:?}"),
    }
}

#[test]
fn track_mod_other_statuses() {
    let unauthorized = track_mod_response(401, 77, "{\"message\": \"bad key\"}").unwrap_err();
    match unauthorized {
        TrackModError::InvalidAPIKey(e) => assert_eq!(e.message(), "bad key"),
        other => panic!("expected the API-key error, got {other:?}"),
    }
    assert_eq!(
        track_mod_response(503, 77, "").unwrap_err(),
        TrackModError::ContractViolation(503)
    );
}

#[test]
fn untrack_mod_ok_is_unit() {
    assert_eq!(untrack_mod_response(200, ""), Ok(()));
}

#[test]
fn untrack_mod_not_found_carries_the_message() {
    let err = untrack_mod_response(404, "{\"message\": \"not tracked\"}").unwrap_err();
    match err {
        DeleteModError::UntrackedOrInvalid(e) => assert_eq!(e.message(), "not tracked"),
        other => panic!("expected untracked-or-invalid, got {other:?}"),
    }
    assert_eq!(untrack_mod_response(418, "").unwrap_err(), DeleteModError::ContractViolation(418));
}

#[test]
fn endorsements_ok_decodes_the_records() {
    let body = "[\
        {\"mod_id\": 3, \"domain_name\": \"skyrim\",\
         \"date\": \"2021-01-01T12:00:00+00:00\",\
         \"version\": \"1.2\", \"status\": \"Endorsed\"},\
        {\"mod_id\": 4, \"domain_name\": \"fallout4\",\
         \"date\": \"2024-01-01T00:00:00+00:00\",\
         \"version\": null, \"status\": \"Abstained\"}\
    ]";
    let list = endorsements_response(200, body).unwrap();
    let mods = list.mods();
    assert_eq!(mods.len(), 2);
    assert_eq!(mods[0].id().id(), 3);
    assert_eq!(mods[0].date(), 1609502400);
    assert_eq!(mods[0].version(), Some("1.2"));
    assert!(mods[0].is_endorsed());
    assert_eq!(mods[1].endorsed_status(), EndorseStatus::NotEndorsed);
    assert_eq!(mods[1].version(), None);
    assert_eq!(mods[1].date(), 1704067200);
}

const GAME_BODY: &str = "{\
    \"id\": 110,\
    \"name\": \"Skyrim\",\
    \"forum_url\": \"https://forums.example.com/110\",\
    \"nexusmods_url\": \"https://example.com/skyrim\",\
    \"genre\": \"RPG\",\
    \"file_count\": 12,\
    \"domain_name\": \"skyrim\",\
    \"approved_date\": 1609502400,\
    \"file_views\": 34,\
    \"authors\": 56,\
    \"file_endorsements\": 78,\
    \"mods\": 90,\
    \"categories\": [\
        {\"category_id\": 1, \"name\": \"root\", \"parent_category\": false},\
        {\"category_id\": 2, \"name\": \"child\", \"parent_category\": 1}\
    ]\
}";

#[test]
fn game_ok_decodes_the_record_and_its_categories() {
    let game = game_response(200, GAME_BODY).unwrap();
    assert_eq!(game.id(), 110);
    assert_eq!(game.pretty_name(), "Skyrim");
    assert_eq!(game.domain_name(), "skyrim");
    assert_eq!(game.genre(), "RPG");
    assert_eq!(game.approved_date(), 1609502400);
    assert_eq!(game.file_views(), 34);
    assert_eq!(game.authors(), 56);
    assert_eq!(game.endorsements(), 78);
    assert_eq!(game.mods(), 90);
    let cats = game.categories();
    assert_eq!(cats.len(), 2);
    assert_eq!(cats[0].parent(), Category::NoParent);
    assert_eq!(cats[1].parent(), Category::Parent(1));
    let parent = game.trace_parent_category(&cats[1]).unwrap();
    assert_eq!(parent.category_id(), 1);
    assert_eq!(parent.name(), "root");
    assert!(game.trace_parent_category(&cats[0]).is_none());
}

#[test]
fn game_not_found_is_decoded_with_the_api_key_error_shape() {
    let err = game_response(404, "{\"message\": \"key refused\"}").unwrap_err();
    match err {
        GameModError::InvalidAPIKey(e) => assert_eq!(e.message(), "key refused"),
        other => panic!("expected the API-key error, got {other:?}"),
    }
}

#[test]
fn game_rejects_a_true_parent_reference() {
    let body = "{\
        \"id\": 1, \"name\": \"g\", \"forum_url\": \"f\", \"nexusmods_url\": \"n\",\
        \"genre\": \"x\", \"file_count\": 0, \"domain_name\": \"g\",\
        \"approved_date\": 0, \"file_views\": 0, \"authors\": 0,\
        \"file_endorsements\": 0, \"mods\": 0,\
        \"categories\": [{\"category_id\": 1, \"name\": \"c\", \"parent_category\": true}]\
    }";
    assert_eq!(game_response(200, body).unwrap_err(), GameModError::Decode);
}

#[test]
fn games_ok_decodes_the_whole_list() {
    let body = format!("[{GAME_BODY}]");
    let games = nexusmods::api::games_response(200, &body).unwrap();
    assert_eq!(games.len(), 1);
    assert_eq!(games[0].id(), 110);
    assert_eq!(
        nexusmods::api::games_response(502, "").unwrap_err(),
        GameModError::ContractViolation(502)
    );
}

#[test]
fn updated_during_ok_decodes_the_list() {
    let body = "[\
        {\"mod_id\": 11, \"latest_file_update\": 100, \"latest_mod_activity\": 200},\
        {\"mod_id\": 12, \"latest_file_update\": 300, \"latest_mod_activity\": 400}\
    ]";
    let ms = updated_during_response(200, body).unwrap();
    assert_eq!(ms.len(), 2);
    assert_eq!(ms[0].id().id(), 11);
    assert_eq!(ms[0].last_updated(), 100);
    assert_eq!(ms[1].last_activity(), 400);
    assert_eq!(updated_during_response(422, "").unwrap_err(), GameModError::NotObserved(422));
}

const FILE_BODY: &str = "{\
    \"id\": [2049, 110],\
    \"uid\": 470, \"file_id\": 2049,\
    \"name\": \"Patch\", \"version\": \"1.1\",\
    \"category_id\": 2, \"category_name\": \"UPDATE\",\
    \"is_primary\": false, \"size\": 4,\
    \"file_name\": \"patch-1-1.7z\",\
    \"uploaded_timestamp\": 1609502400,\
    \"uploaded_time\": \"2021-01-01T12:00:00+00:00\",\
    \"mod_version\": \"1.1\",\
    \"external_virus_scan_url\": \"https://scan.example.com/470\",\
    \"description\": null,\
    \"size_kb\": 4, \"size_in_bytes\": 4096,\
    \"changelog_html\": \"<p>fixes</p>\",\
    \"content_preview_link\": \"https://preview.example.com/470\"\
}";

#[test]
fn mod_file_ok_decodes_every_field() {
    let f = mod_file_response(200, FILE_BODY).unwrap();
    assert_eq!(f.ids(), &[2049, 110]);
    assert_eq!(f.uid(), 470);
    assert_eq!(f.file_id(), 2049);
    assert_eq!(f.name(), "Patch");
    assert_eq!(f.version(), "1.1");
    assert_eq!(f.category_id(), 2);
    assert_eq!(f.category_name(), CategoryName::Update);
    assert!(!f.is_primary());
    assert_eq!(f.size(), 4);
    assert_eq!(f.file_name(), "patch-1-1.7z");
    assert_eq!(f.uploaded_at(), 1609502400);
    assert_eq!(f.uploaded_time(), 1609502400);
    assert_eq!(f.mod_version(), "1.1");
    assert_eq!(f.virus_scan_url(), Some("https://scan.example.com/470"));
    assert_eq!(f.description(), None);
    assert_eq!(f.size_kb(), 4);
    assert_eq!(f.size_bytes(), 4096);
    assert_eq!(f.changelog(), Some("<p>fixes</p>"));
    assert_eq!(f.content_preview(), "https://preview.example.com/470");
}

#[test]
fn mod_files_ok_decodes_both_lists() {
    let body = format!(
        "{{\"files\": [{FILE_BODY}], \"file_updates\": [\
            {{\"old_file_id\": 1, \"new_file_id\": 2,\
              \"old_file_name\": \"a.7z\", \"new_file_name\": \"b.7z\",\
              \"uploaded_timestamp\": 0,\
              \"uploaded_time\": \"1970-01-01T00:00:00+00:00\"}}\
        ]}}"
    );
    let bundle = mod_files_response(200, &body).unwrap();
    assert_eq!(bundle.iter_files().len(), 1);
    let updates = bundle.iter_updates();
    assert_eq!(updates.len(), 1);
    assert_eq!(updates[0].ids(), (1, 2));
    assert_eq!(updates[0].names(), ("a.7z", "b.7z"));
    assert_eq!(updates[0].uploaded_at(), 0);
    let files = bundle.into_iter_files();
    assert_eq!(files[0].file_id(), 2049);
}

#[test]
fn mod_files_rejects_a_bad_timestamp_pair() {
    let body = "{\"files\": [], \"file_updates\": [\
        {\"old_file_id\": 1, \"new_file_id\": 2,\
         \"old_file_name\": \"a\", \"new_file_name\": \"b\",\
         \"uploaded_timestamp\": 0, \"uploaded_time\": \"not a date\"}\
    ]}";
    assert_eq!(mod_files_response(200, body).unwrap_err(), GameModError::Decode);
}
