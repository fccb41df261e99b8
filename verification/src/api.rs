//! The endpoint layer: one request description and one status table per
//! documented endpoint.
//!
//! A request description names the method, the path segments under the
//! versioned prefix, and the query/form parameters; the caller owns the
//! transport, sends it, and hands the status code and raw body back to the
//! matching outcome function, which enforces the endpoint's documented
//! status table and decodes the body.

use vstd::prelude::*;
use vstd::string::StringSliceAdditionalSpecFns;

use crate::decode::{
    decode_api_key_error, decode_game, decode_game_list, decode_mod_file, decode_mod_files,
    decode_mod_not_found, decode_mod_updated_list, decode_tracked_mods, decode_untracked,
    decode_validate, decode_endorsements, endorsements_matches, endorsements_shape,
    game_list_matches, game_list_shape, game_matches, game_shape, mod_file_matches,
    mod_file_shape, mod_files_matches, mod_files_shape, mod_updated_list_matches,
    mod_updated_list_shape, spec_api_key_error_of, spec_mod_not_found_of, spec_untracked_of,
    tracked_mods_matches, tracked_mods_shape, validate_matches, validate_shape,
};
use crate::err::{
    DeleteModError, GameModError, PostModStatus, TrackModError, ValidateError,
};
use crate::json::{json_of, parse_json, JsonValue};
use crate::request::{
    CategoryName, Endorsements, GameId, ModFile, ModFiles, ModId, ModUpdated, TimePeriod,
    TrackedModsRaw, Validate,
};

verus! {

/// The decimal digit character for `d`.
pub open spec fn spec_digit_char(d: int) -> char {
    if d == 0 {
        '0'
    } else if d == 1 {
        '1'
    } else if d == 2 {
        '2'
    } else if d == 3 {
        '3'
    } else if d == 4 {
        '4'
    } else if d == 5 {
        '5'
    } else if d == 6 {
        '6'
    } else if d == 7 {
        '7'
    } else if d == 8 {
        '8'
    } else {
        '9'
    }
}

/// The decimal digits of a non-negative number, most significant first.
pub open spec fn spec_dec_chars(n: int) -> Seq<char>
    recommends
        n >= 0,
    decreases n,
{
    if n < 10 {
        seq![spec_digit_char(n)]
    } else {
        spec_dec_chars(n / 10).push(spec_digit_char(n % 10))
    }
}

fn digit_str(d: u64) -> (r: &'static str)
    requires
        d < 10,
    ensures
        r@ =~= seq![spec_digit_char(d as int)],
{
    proof {
        reveal_strlit("0");
        reveal_strlit("1");
        reveal_strlit("2");
        reveal_strlit("3");
        reveal_strlit("4");
        reveal_strlit("5");
        reveal_strlit("6");
        reveal_strlit("7");
        reveal_strlit("8");
        reveal_strlit("9");
    }
    if d == 0 {
        "0"
    } else if d == 1 {
        "1"
    } else if d == 2 {
        "2"
    } else if d == 3 {
        "3"
    } else if d == 4 {
        "4"
    } else if d == 5 {
        "5"
    } else if d == 6 {
        "6"
    } else if d == 7 {
        "7"
    } else if d == 8 {
        "8"
    } else {
        "9"
    }
}

/// Format a number as its decimal digits (used for path segments and form
/// values).
pub fn u64_to_string(n: u64) -> (r: String)
    ensures
        r@ =~= spec_dec_chars(n as int),
{
    let mut digits: Vec<u64> = Vec::new();
    let mut m: u64 = n;
    let ghost mut suffix: Seq<char> = Seq::empty();
    loop
        invariant_except_break
            digits@.len() == suffix.len(),
            forall|j: int|
                0 <= j < digits@.len() ==> digits@[j] < 10 && suffix[suffix.len() - 1 - j]
                    == spec_digit_char(digits@[j] as int),
            suffix.len() == 0 ==> m == n,
            suffix.len() > 0 ==> m > 0 && spec_dec_chars(n as int) =~= spec_dec_chars(m as int)
                + suffix,
        ensures
            digits@.len() == suffix.len(),
            forall|j: int|
                0 <= j < digits@.len() ==> digits@[j] < 10 && suffix[suffix.len() - 1 - j]
                    == spec_digit_char(digits@[j] as int),
            spec_dec_chars(n as int) =~= suffix,
        decreases m + (if suffix.len() == 0 { 1int } else { 0int }),
    {
        let d: u64 = m % 10;
        let next: u64 = m / 10;
        digits.push(d);
        proof {
            let old_suffix = suffix;
            suffix = seq![spec_digit_char(d as int)] + old_suffix;
            let mi = m as int;
            if m >= 10 {
                assert(spec_dec_chars(mi) == spec_dec_chars(mi / 10).push(
                    spec_digit_char(mi % 10),
                ));
                assert(spec_dec_chars(mi) =~= spec_dec_chars(next as int) + seq![
                    spec_digit_char(d as int),
                ]);
                assert((spec_dec_chars(next as int) + seq![spec_digit_char(d as int)])
                    + old_suffix =~= spec_dec_chars(next as int) + suffix);
                assert(spec_dec_chars(n as int) =~= spec_dec_chars(next as int) + suffix);
            } else {
                assert(spec_dec_chars(mi) =~= seq![spec_digit_char(d as int)]);
                assert(spec_dec_chars(n as int) =~= suffix);
            }
        }
        m = next;
        if m == 0 {
            break;
        }
    }
    let mut out = String::new();
    let len = digits.len();
    let mut k: usize = 0;
    while k < len
        invariant
            len == digits@.len(),
            0 <= k <= len,
            suffix.len() == len,
            forall|j: int|
                0 <= j < len ==> digits@[j] < 10 && suffix[suffix.len() - 1 - j]
                    == spec_digit_char(digits@[j] as int),
            out@ =~= suffix.take(k as int),
        decreases len - k,
    {
        let d = digits[len - 1 - k];
        out.append(digit_str(d));
        proof {
            assert(suffix[k as int] == spec_digit_char(digits@[len - 1 - k as int] as int));
            assert(out@ =~= suffix.take(k as int + 1));
        }
        k += 1;
    }
    proof {
        assert(suffix.take(len as int) =~= suffix);
    }
    out
}

/// `b` may appear in an HTTP header value: horizontal tab, or any byte
/// from space onward except delete.
pub open spec fn spec_valid_header_byte(b: u8) -> bool {
    b == 9 || (32 <= b && b != 127)
}

/// The whole string can be carried as an HTTP header value.
pub open spec fn spec_valid_header_value(bytes: Seq<u8>) -> bool {
    forall|i: int| 0 <= i < bytes.len() ==> spec_valid_header_byte(#[trigger] bytes[i])
}

/// Whether an API key can be encoded as a header value; client
/// construction must fail fast on one that cannot.
pub fn api_key_acceptable(key: &str) -> (r: bool)
    ensures
        r == spec_valid_header_value(key.spec_bytes()),
{
    let b = key.as_bytes();
    let n = b.len();
    let mut i: usize = 0;
    while i < n
        invariant
            b@ == key.spec_bytes(),
            n == b@.len(),
            0 <= i <= n,
            forall|j: int| 0 <= j < i ==> spec_valid_header_byte(#[trigger] b@[j]),
        decreases n - i,
    {
        let c = b[i];
        if !(c == 9 || (32 <= c && c != 127)) {
            return false;
        }
        i += 1;
    }
    true
}

/// The HTTP method of a request description.
#[derive(Debug, Clone, Copy, PartialEq, Eq, Structural)]
pub enum HttpMethod {
    Get,
    Post,
    Delete,
}

/// One endpoint call, described as data: the method, the path segments
/// under the versioned prefix, and the query and form parameters. The
/// caller appends ".json" to the last segment, attaches the API key
/// header, and sends it.
#[derive(Debug)]
pub struct ApiRequest {
    pub method: HttpMethod,
    pub path: Vec<String>,
    pub query: Vec<(String, String)>,
    pub form: Vec<(String, String)>,
}

/// The request of the validate endpoint.
pub fn validate_request() -> (r: ApiRequest)
    ensures
        r.method == HttpMethod::Get,
        r.path@.len() == 2 && r.path@[0]@ == "users"@ && r.path@[1]@ == "validate"@,
        r.query@.len() == 0,
        r.form@.len() == 0,
{
    ApiRequest {
        method: HttpMethod::Get,
        path: vec![String::from_str("users"), String::from_str("validate")],
        query: Vec::new(),
        form: Vec::new(),
    }
}

/// The request of the tracked-mods list endpoint.
pub fn tracked_mods_request() -> (r: ApiRequest)
    ensures
        r.method == HttpMethod::Get,
        r.path@.len() == 2 && r.path@[0]@ == "user"@ && r.path@[1]@ == "tracked_mods"@,
        r.query@.len() == 0,
        r.form@.len() == 0,
{
    ApiRequest {
        method: HttpMethod::Get,
        path: vec![String::from_str("user"), String::from_str("tracked_mods")],
        query: Vec::new(),
        form: Vec::new(),
    }
}

/// The request that tracks a mod: the game as a query parameter and the
/// id as a form field.
pub fn track_mod_request(game: &str, id: u64) -> (r: ApiRequest)
    ensures
        r.method == HttpMethod::Post,
        r.path@.len() == 2 && r.path@[0]@ == "user"@ && r.path@[1]@ == "tracked_mods"@,
        r.query@.len() == 1 && r.query@[0].0@ == "domain_name"@ && r.query@[0].1@ == game@,
        r.form@.len() == 1 && r.form@[0].0@ == "mod_id"@ && r.form@[0].1@ == spec_dec_chars(
            id as int,
        ),
{
    ApiRequest {
        method: HttpMethod::Post,
        path: vec![String::from_str("user"), String::from_str("tracked_mods")],
        query: vec![(String::from_str("domain_name"), String::from_str(game))],
        form: vec![(String::from_str("mod_id"), u64_to_string(id))],
    }
}

/// The request that untracks a mod; the id comes from a [`ModId`], since
/// the caller is expected to know a confirmed id here.
pub fn untrack_mod_request(game: &str, id: ModId) -> (r: ApiRequest)
    ensures
        r.method == HttpMethod::Delete,
        r.path@.len() == 2 && r.path@[0]@ == "user"@ && r.path@[1]@ == "tracked_mods"@,
        r.query@.len() == 1 && r.query@[0].0@ == "domain_name"@ && r.query@[0].1@ == game@,
        r.form@.len() == 1 && r.form@[0].0@ == "mod_id"@ && r.form@[0].1@ == spec_dec_chars(
            id@ as int,
        ),
{
    ApiRequest {
        method: HttpMethod::Delete,
        path: vec![String::from_str("user"), String::from_str("tracked_mods")],
        query: vec![(String::from_str("domain_name"), String::from_str(game))],
        form: vec![(String::from_str("mod_id"), u64_to_string(id.id()))],
    }
}

/// The request of the endorsements endpoint.
pub fn endorsements_request() -> (r: ApiRequest)
    ensures
        r.method == HttpMethod::Get,
        r.path@.len() == 2 && r.path@[0]@ == "user"@ && r.path@[1]@ == "endorsements"@,
        r.query@.len() == 0,
        r.form@.len() == 0,
{
    ApiRequest {
        method: HttpMethod::Get,
        path: vec![String::from_str("user"), String::from_str("endorsements")],
        query: Vec::new(),
        form: Vec::new(),
    }
}

/// The request of the recently-updated endpoint, filtered to a timeframe.
pub fn updated_during_request(game: &str, time: TimePeriod) -> (r: ApiRequest)
    ensures
        r.method == HttpMethod::Get,
        r.path@.len() == 4 && r.path@[0]@ == "games"@ && r.path@[1]@ == game@ && r.path@[2]@
            == "mods"@ && r.path@[3]@ == "updated"@,
        r.query@.len() == 1 && r.query@[0].0@ == "period"@ && r.query@[0].1@ == (match time {
            TimePeriod::Day => "1d"@,
            TimePeriod::Week => "1w"@,
            TimePeriod::Month => "1m"@,
        }),
        r.form@.len() == 0,
{
    ApiRequest {
        method: HttpMethod::Get,
        path: vec![
            String::from_str("games"),
            String::from_str(game),
            String::from_str("mods"),
            String::from_str("updated"),
        ],
        query: vec![(String::from_str("period"), String::from_str(time.as_str()))],
        form: Vec::new(),
    }
}

/// The request of the all-games endpoint.
pub fn games_request() -> (r: ApiRequest)
    ensures
        r.method == HttpMethod::Get,
        r.path@.len() == 1 && r.path@[0]@ == "games"@,
        r.query@.len() == 0,
        r.form@.len() == 0,
{
    ApiRequest {
        method: HttpMethod::Get,
        path: vec![String::from_str("games")],
        query: Vec::new(),
        form: Vec::new(),
    }
}

/// The request of the single-game endpoint.
pub fn game_request(game: &str) -> (r: ApiRequest)
    ensures
        r.method == HttpMethod::Get,
        r.path@.len() == 2 && r.path@[0]@ == "games"@ && r.path@[1]@ == game@,
        r.query@.len() == 0,
        r.form@.len() == 0,
{
    ApiRequest {
        method: HttpMethod::Get,
        path: vec![String::from_str("games"), String::from_str(game)],
        query: Vec::new(),
        form: Vec::new(),
    }
}

/// The request of the mod-files endpoint, optionally filtered to one file
/// category.
pub fn mod_files_request(game: &str, mod_id: ModId, category: Option<CategoryName>) -> (r:
    ApiRequest)
    ensures
        r.method == HttpMethod::Get,
        r.path@.len() == 5 && r.path@[0]@ == "games"@ && r.path@[1]@ == game@ && r.path@[2]@
            == "mods"@ && r.path@[3]@ == spec_dec_chars(mod_id@ as int) && r.path@[4]@
            == "files"@,
        match category {
            Some(c) => r.query@.len() == 1 && r.query@[0].0@ == "category"@ && r.query@[0].1@
                == (match c {
                CategoryName::Main => "main"@,
                CategoryName::Update => "update"@,
                CategoryName::Optional => "optional"@,
                CategoryName::OldVersion => "old_version"@,
                CategoryName::Miscellaneous => "miscellaneous"@,
                CategoryName::Archived => "archived"@,
            }),
            None => r.query@.len() == 0,
        },
        r.form@.len() == 0,
{
    let query: Vec<(String, String)> = match category {
        Some(c) => vec![(String::from_str("category"), String::from_str(c.to_header_str()))],
        None => Vec::new(),
    };
    ApiRequest {
        method: HttpMethod::Get,
        path: vec![
            String::from_str("games"),
            String::from_str(game),
            String::from_str("mods"),
            u64_to_string(mod_id.id()),
            String::from_str("files"),
        ],
        query,
        form: Vec::new(),
    }
}

/// The request of the single-file endpoint.
pub fn mod_file_request(game: &str, mod_id: ModId, file_id: u64) -> (r: ApiRequest)
    ensures
        r.method == HttpMethod::Get,
        r.path@.len() == 6 && r.path@[0]@ == "games"@ && r.path@[1]@ == game@ && r.path@[2]@
            == "mods"@ && r.path@[3]@ == spec_dec_chars(mod_id@ as int) && r.path@[4]@
            == "files"@ && r.path@[5]@ == spec_dec_chars(file_id as int),
        r.query@.len() == 0,
        r.form@.len() == 0,
{
    ApiRequest {
        method: HttpMethod::Get,
        path: vec![
            String::from_str("games"),
            String::from_str(game),
            String::from_str("mods"),
            u64_to_string(mod_id.id()),
            String::from_str("files"),
            u64_to_string(file_id),
        ],
        query: Vec::new(),
        form: Vec::new(),
    }
}

/// The body value a caller hands in, lifted to a spec value.
pub open spec fn spec_opt_val(body: Option<&JsonValue>) -> Option<JsonValue> {
    match body {
        Some(v) => Some(*v),
        None => None,
    }
}

/// The status table of the validate endpoint: 200 decodes the identity,
/// 401 decodes the API-key error body, 422 is documented but never
/// observed, and any other status is a contract violation. A body that
/// does not parse or does not match the expected shape is a decode
/// failure.
pub open spec fn validate_outcome_ok(
    status: u16,
    body: Option<JsonValue>,
    r: Result<Validate, ValidateError>,
) -> bool {
    if status == 200 {
        match body {
            Some(v) => {
                &&& (r is Ok <==> validate_shape(v))
                &&& (r matches Ok(u) ==> validate_matches(v, u))
                &&& (!validate_shape(v) ==> r == Err::<Validate, ValidateError>(
                    ValidateError::Decode,
                ))
            },
            None => r == Err::<Validate, ValidateError>(ValidateError::Decode),
        }
    } else if status == 401 {
        match body {
            Some(v) => match spec_api_key_error_of(v) {
                Some(e) => r == Err::<Validate, ValidateError>(ValidateError::InvalidAPIKey(e)),
                None => r == Err::<Validate, ValidateError>(ValidateError::Decode),
            },
            None => r == Err::<Validate, ValidateError>(ValidateError::Decode),
        }
    } else if status == 422 {
        r == Err::<Validate, ValidateError>(ValidateError::NotObserved(422))
    } else {
        r == Err::<Validate, ValidateError>(ValidateError::ContractViolation(status))
    }
}

/// Decode the validate endpoint's response per its status table.
pub fn validate_outcome(status: u16, body: Option<&JsonValue>) -> (r: Result<
    Validate,
    ValidateError,
>)
    ensures
        validate_outcome_ok(status, spec_opt_val(body), r),
{
    if status == 200 {
        match body {
            Some(v) => match decode_validate(v) {
                Some(u) => Ok(u),
                None => Err(ValidateError::Decode),
            },
            None => Err(ValidateError::Decode),
        }
    } else if status == 401 {
        match body {
            Some(v) => match decode_api_key_error(v) {
                Some(e) => Err(ValidateError::InvalidAPIKey(e)),
                None => Err(ValidateError::Decode),
            },
            None => Err(ValidateError::Decode),
        }
    } else if status == 422 {
        Err(ValidateError::NotObserved(422))
    } else {
        Err(ValidateError::ContractViolation(status))
    }
}

/// Decode the validate endpoint's response from its raw body text.
pub fn validate_response(status: u16, body: &str) -> (r: Result<Validate, ValidateError>)
    ensures
        validate_outcome_ok(status, json_of(body@), r),
{
    let parsed = parse_json(body);
    match &parsed {
        Some(v) => validate_outcome(status, Some(v)),
        None => validate_outcome(status, None),
    }
}

/// The status table of the tracked-mods list endpoint (the same table as
/// the validate endpoint, with the tracked-mods body).
pub open spec fn tracked_mods_outcome_ok(
    status: u16,
    body: Option<JsonValue>,
    r: Result<TrackedModsRaw, ValidateError>,
) -> bool {
    if status == 200 {
        match body {
            Some(v) => {
                &&& (r is Ok <==> tracked_mods_shape(v))
                &&& (r matches Ok(t) ==> tracked_mods_matches(v, t))
                &&& (!tracked_mods_shape(v) ==> r == Err::<TrackedModsRaw, ValidateError>(
                    ValidateError::Decode,
                ))
            },
            None => r == Err::<TrackedModsRaw, ValidateError>(ValidateError::Decode),
        }
    } else if status == 401 {
        match body {
            Some(v) => match spec_api_key_error_of(v) {
                Some(e) => r == Err::<TrackedModsRaw, ValidateError>(
                    ValidateError::InvalidAPIKey(e),
                ),
                None => r == Err::<TrackedModsRaw, ValidateError>(ValidateError::Decode),
            },
            None => r == Err::<TrackedModsRaw, ValidateError>(ValidateError::Decode),
        }
    } else if status == 422 {
        r == Err::<TrackedModsRaw, ValidateError>(ValidateError::NotObserved(422))
    } else {
        r == Err::<TrackedModsRaw, ValidateError>(ValidateError::ContractViolation(status))
    }
}

/// Decode the tracked-mods endpoint's response per its status table.
pub fn tracked_mods_outcome(status: u16, body: Option<&JsonValue>) -> (r: Result<
    TrackedModsRaw,
    ValidateError,
>)
    ensures
        tracked_mods_outcome_ok(status, spec_opt_val(body), r),
{
    if status == 200 {
        match body {
            Some(v) => match decode_tracked_mods(v) {
                Some(t) => Ok(t),
                None => Err(ValidateError::Decode),
            },
            None => Err(ValidateError::Decode),
        }
    } else if status == 401 {
        match body {
            Some(v) => match decode_api_key_error(v) {
                Some(e) => Err(ValidateError::InvalidAPIKey(e)),
                None => Err(ValidateError::Decode),
            },
            None => Err(ValidateError::Decode),
        }
    } else if status == 422 {
        Err(ValidateError::NotObserved(422))
    } else {
        Err(ValidateError::ContractViolation(status))
    }
}

/// Decode the tracked-mods endpoint's response from its raw body text.
pub fn tracked_mods_response(status: u16, body: &str) -> (r: Result<
    TrackedModsRaw,
    ValidateError,
>)
    ensures
        tracked_mods_outcome_ok(status, json_of(body@), r),
{
    let parsed = parse_json(body);
    match &parsed {
        Some(v) => tracked_mods_outcome(status, Some(v)),
        None => tracked_mods_outcome(status, None),
    }
}

/// The status table of the endorsements endpoint (the same table as the
/// validate endpoint, with the endorsement-list body).
pub open spec fn endorsements_outcome_ok(
    status: u16,
    body: Option<JsonValue>,
    r: Result<Endorsements, ValidateError>,
) -> bool {
    if status == 200 {
        match body {
            Some(v) => {
                &&& (r is Ok <==> endorsements_shape(v))
                &&& (r matches Ok(t) ==> endorsements_matches(v, t))
                &&& (!endorsements_shape(v) ==> r == Err::<Endorsements, ValidateError>(
                    ValidateError::Decode,
                ))
            },
            None => r == Err::<Endorsements, ValidateError>(ValidateError::Decode),
        }
    } else if status == 401 {
        match body {
            Some(v) => match spec_api_key_error_of(v) {
                Some(e) => r == Err::<Endorsements, ValidateError>(
                    ValidateError::InvalidAPIKey(e),
                ),
                None => r == Err::<Endorsements, ValidateError>(ValidateError::Decode),
            },
            None => r == Err::<Endorsements, ValidateError>(ValidateError::Decode),
        }
    } else if status == 422 {
        r == Err::<Endorsements, ValidateError>(ValidateError::NotObserved(422))
    } else {
        r == Err::<Endorsements, ValidateError>(ValidateError::ContractViolation(status))
    }
}

/// Decode the endorsements endpoint's response per its status table.
pub fn endorsements_outcome(status: u16, body: Option<&JsonValue>) -> (r: Result<
    Endorsements,
    ValidateError,
>)
    ensures
        endorsements_outcome_ok(status, spec_opt_val(body), r),
{
    if status == 200 {
        match body {
            Some(v) => match decode_endorsements(v) {
                Some(t) => Ok(t),
                None => Err(ValidateError::Decode),
            },
            None => Err(ValidateError::Decode),
        }
    } else if status == 401 {
        match body {
            Some(v) => match decode_api_key_error(v) {
                Some(e) => Err(ValidateError::InvalidAPIKey(e)),
                None => Err(ValidateError::Decode),
            },
            None => Err(ValidateError::Decode),
        }
    } else if status == 422 {
        Err(ValidateError::NotObserved(422))
    } else {
        Err(ValidateError::ContractViolation(status))
    }
}

/// Decode the endorsements endpoint's response from its raw body text.
pub fn endorsements_response(status: u16, body: &str) -> (r: Result<Endorsements, ValidateError>)
    ensures
        endorsements_outcome_ok(status, json_of(body@), r),
{
    let parsed = parse_json(body);
    match &parsed {
        Some(v) => endorsements_outcome(status, Some(v)),
        None => endorsements_outcome(status, None),
    }
}

/// The status table of the track-mod endpoint: 200 means the mod was
/// already tracked and 201 that it is newly tracked (either way the server
/// has confirmed `id`, which the outcome wraps); 401 decodes the API-key
/// error body, 404 the mod-not-found body; any other status is a contract
/// violation.
pub open spec fn track_mod_outcome_ok(
    status: u16,
    id: u64,
    body: Option<JsonValue>,
    r: Result<PostModStatus, TrackModError>,
) -> bool {
    if status == 200 {
        r matches Ok(s) && s matches PostModStatus::AlreadyTracking(m) && m@ == id
    } else if status == 201 {
        r matches Ok(s) && s matches PostModStatus::SuccessfullyTracked(m) && m@ == id
    } else if status == 401 {
        match body {
            Some(v) => match spec_api_key_error_of(v) {
                Some(e) => r == Err::<PostModStatus, TrackModError>(
                    TrackModError::InvalidAPIKey(e),
                ),
                None => r == Err::<PostModStatus, TrackModError>(TrackModError::Decode),
            },
            None => r == Err::<PostModStatus, TrackModError>(TrackModError::Decode),
        }
    } else if status == 404 {
        match body {
            Some(v) => match spec_mod_not_found_of(v) {
                Some(e) => r == Err::<PostModStatus, TrackModError>(
                    TrackModError::ModNotFound(e),
                ),
                None => r == Err::<PostModStatus, TrackModError>(TrackModError::Decode),
            },
            None => r == Err::<PostModStatus, TrackModError>(TrackModError::Decode),
        }
    } else {
        r == Err::<PostModStatus, TrackModError>(TrackModError::ContractViolation(status))
    }
}

/// Decode the track-mod endpoint's response per its status table.
pub fn track_mod_outcome(status: u16, id: u64, body: Option<&JsonValue>) -> (r: Result<
    PostModStatus,
    TrackModError,
>)
    ensures
        track_mod_outcome_ok(status, id, spec_opt_val(body), r),
{
    if status == 200 {
        Ok(PostModStatus::AlreadyTracking(ModId::from_u64(id)))
    } else if status == 201 {
        Ok(PostModStatus::SuccessfullyTracked(ModId::from_u64(id)))
    } else if status == 401 {
        match body {
            Some(v) => match decode_api_key_error(v) {
                Some(e) => Err(TrackModError::InvalidAPIKey(e)),
                None => Err(TrackModError::Decode),
            },
            None => Err(TrackModError::Decode),
        }
    } else if status == 404 {
        match body {
            Some(v) => match decode_mod_not_found(v) {
                Some(e) => Err(TrackModError::ModNotFound(e)),
                None => Err(TrackModError::Decode),
            },
            None => Err(TrackModError::Decode),
        }
    } else {
        Err(TrackModError::ContractViolation(status))
    }
}

/// Decode the track-mod endpoint's response from its raw body text.
pub fn track_mod_response(status: u16, id: u64, body: &str) -> (r: Result<
    PostModStatus,
    TrackModError,
>)
    ensures
        track_mod_outcome_ok(status, id, json_of(body@), r),
{
    let parsed = parse_json(body);
    match &parsed {
        Some(v) => track_mod_outcome(status, id, Some(v)),
        None => track_mod_outcome(status, id, None),
    }
}

/// The status table of the untrack-mod endpoint: 200 is plain success, 404
/// decodes the untracked-or-invalid body; any other status is a contract
/// violation.
pub open spec fn untrack_mod_outcome_ok(
    status: u16,
    body: Option<JsonValue>,
    r: Result<(), DeleteModError>,
) -> bool {
    if status == 200 {
        r is Ok
    } else if status == 404 {
        match body {
            Some(v) => match spec_untracked_of(v) {
                Some(e) => r == Err::<(), DeleteModError>(DeleteModError::UntrackedOrInvalid(e)),
                None => r == Err::<(), DeleteModError>(DeleteModError::Decode),
            },
            None => r == Err::<(), DeleteModError>(DeleteModError::Decode),
        }
    } else {
        r == Err::<(), DeleteModError>(DeleteModError::ContractViolation(status))
    }
}

/// Decode the untrack-mod endpoint's response per its status table.
pub fn untrack_mod_outcome(status: u16, body: Option<&JsonValue>) -> (r: Result<
    (),
    DeleteModError,
>)
    ensures
        untrack_mod_outcome_ok(status, spec_opt_val(body), r),
{
    if status == 200 {
        Ok(())
    } else if status == 404 {
        match body {
            Some(v) => match decode_untracked(v) {
                Some(e) => Err(DeleteModError::UntrackedOrInvalid(e)),
                None => Err(DeleteModError::Decode),
            },
            None => Err(DeleteModError::Decode),
        }
    } else {
        Err(DeleteModError::ContractViolation(status))
    }
}

/// Decode the untrack-mod endpoint's response from its raw body text.
pub fn untrack_mod_response(status: u16, body: &str) -> (r: Result<(), DeleteModError>)
    ensures
        untrack_mod_outcome_ok(status, json_of(body@), r),
{
    let parsed = parse_json(body);
    match &parsed {
        Some(v) => untrack_mod_outcome(status, Some(v)),
        None => untrack_mod_outcome(status, None),
    }
}

/// The status table shared by the game, mod and file GET endpoints: 200
/// decodes the success body; 404 is decoded with the API-key error shape
/// (so documented upstream, despite 404 conventionally meaning "not
/// found" - preserved, not "fixed"); 422 is documented but never
/// observed; any other status is a contract violation. One table per
/// result type follows.
pub open spec fn updated_during_outcome_ok(
    status: u16,
    body: Option<JsonValue>,
    r: Result<Vec<ModUpdated>, GameModError>,
) -> bool {
    if status == 200 {
        match body {
            Some(v) => {
                &&& (r is Ok <==> mod_updated_list_shape(v))
                &&& (r matches Ok(ms) ==> mod_updated_list_matches(v, ms@))
                &&& (!mod_updated_list_shape(v) ==> r == Err::<Vec<ModUpdated>, GameModError>(
                    GameModError::Decode,
                ))
            },
            None => r == Err::<Vec<ModUpdated>, GameModError>(GameModError::Decode),
        }
    } else if status == 404 {
        match body {
            Some(v) => match spec_api_key_error_of(v) {
                Some(e) => r == Err::<Vec<ModUpdated>, GameModError>(
                    GameModError::InvalidAPIKey(e),
                ),
                None => r == Err::<Vec<ModUpdated>, GameModError>(GameModError::Decode),
            },
            None => r == Err::<Vec<ModUpdated>, GameModError>(GameModError::Decode),
        }
    } else if status == 422 {
        r == Err::<Vec<ModUpdated>, GameModError>(GameModError::NotObserved(422))
    } else {
        r == Err::<Vec<ModUpdated>, GameModError>(GameModError::ContractViolation(status))
    }
}

/// Decode the recently-updated endpoint's response per its status table.
pub fn updated_during_outcome(status: u16, body: Option<&JsonValue>) -> (r: Result<
    Vec<ModUpdated>,
    GameModError,
>)
    ensures
        updated_during_outcome_ok(status, spec_opt_val(body), r),
{
    if status == 200 {
        match body {
            Some(v) => match decode_mod_updated_list(v) {
                Some(ms) => Ok(ms),
                None => Err(GameModError::Decode),
            },
            None => Err(GameModError::Decode),
        }
    } else if status == 404 {
        match body {
            Some(v) => match decode_api_key_error(v) {
                Some(e) => Err(GameModError::InvalidAPIKey(e)),
                None => Err(GameModError::Decode),
            },
            None => Err(GameModError::Decode),
        }
    } else if status == 422 {
        Err(GameModError::NotObserved(422))
    } else {
        Err(GameModError::ContractViolation(status))
    }
}

/// Decode the recently-updated endpoint's response from its raw body text.
pub fn updated_during_response(status: u16, body: &str) -> (r: Result<
    Vec<ModUpdated>,
    GameModError,
>)
    ensures
        updated_during_outcome_ok(status, json_of(body@), r),
{
    let parsed = parse_json(body);
    match &parsed {
        Some(v) => updated_during_outcome(status, Some(v)),
        None => updated_during_outcome(status, None),
    }
}

/// The status table of the all-games endpoint (see
/// [`updated_during_outcome_ok`] for the shared shape).
pub open spec fn games_outcome_ok(
    status: u16,
    body: Option<JsonValue>,
    r: Result<Vec<GameId>, GameModError>,
) -> bool {
    if status == 200 {
        match body {
            Some(v) => {
                &&& (r is Ok <==> game_list_shape(v))
                &&& (r matches Ok(gs) ==> game_list_matches(v, gs@))
                &&& (!game_list_shape(v) ==> r == Err::<Vec<GameId>, GameModError>(
                    GameModError::Decode,
                ))
            },
            None => r == Err::<Vec<GameId>, GameModError>(GameModError::Decode),
        }
    } else if status == 404 {
        match body {
            Some(v) => match spec_api_key_error_of(v) {
                Some(e) => r == Err::<Vec<GameId>, GameModError>(GameModError::InvalidAPIKey(e)),
                None => r == Err::<Vec<GameId>, GameModError>(GameModError::Decode),
            },
            None => r == Err::<Vec<GameId>, GameModError>(GameModError::Decode),
        }
    } else if status == 422 {
        r == Err::<Vec<GameId>, GameModError>(GameModError::NotObserved(422))
    } else {
        r == Err::<Vec<GameId>, GameModError>(GameModError::ContractViolation(status))
    }
}

/// Decode the all-games endpoint's response per its status table.
pub fn games_outcome(status: u16, body: Option<&JsonValue>) -> (r: Result<
    Vec<GameId>,
    GameModError,
>)
    ensures
        games_outcome_ok(status, spec_opt_val(body), r),
{
    if status == 200 {
        match body {
            Some(v) => match decode_game_list(v) {
                Some(gs) => Ok(gs),
                None => Err(GameModError::Decode),
            },
            None => Err(GameModError::Decode),
        }
    } else if status == 404 {
        match body {
            Some(v) => match decode_api_key_error(v) {
                Some(e) => Err(GameModError::InvalidAPIKey(e)),
                None => Err(GameModError::Decode),
            },
            None => Err(GameModError::Decode),
        }
    } else if status == 422 {
        Err(GameModError::NotObserved(422))
    } else {
        Err(GameModError::ContractViolation(status))
    }
}

/// Decode the all-games endpoint's response from its raw body text.
pub fn games_response(status: u16, body: &str) -> (r: Result<Vec<GameId>, GameModError>)
    ensures
        games_outcome_ok(status, json_of(body@), r),
{
    let parsed = parse_json(body);
    match &parsed {
        Some(v) => games_outcome(status, Some(v)),
        None => games_outcome(status, None),
    }
}

/// The status table of the single-game endpoint (see
/// [`updated_during_outcome_ok`] for the shared shape).
pub open spec fn game_outcome_ok(
    status: u16,
    body: Option<JsonValue>,
    r: Result<GameId, GameModError>,
) -> bool {
    if status == 200 {
        match body {
            Some(v) => {
                &&& (r is Ok <==> game_shape(v))
                &&& (r matches Ok(g) ==> game_matches(v, g))
                &&& (!game_shape(v) ==> r == Err::<GameId, GameModError>(GameModError::Decode))
            },
            None => r == Err::<GameId, GameModError>(GameModError::Decode),
        }
    } else if status == 404 {
        match body {
            Some(v) => match spec_api_key_error_of(v) {
                Some(e) => r == Err::<GameId, GameModError>(GameModError::InvalidAPIKey(e)),
                None => r == Err::<GameId, GameModError>(GameModError::Decode),
            },
            None => r == Err::<GameId, GameModError>(GameModError::Decode),
        }
    } else if status == 422 {
        r == Err::<GameId, GameModError>(GameModError::NotObserved(422))
    } else {
        r == Err::<GameId, GameModError>(GameModError::ContractViolation(status))
    }
}

/// Decode the single-game endpoint's response per its status table.
pub fn game_outcome(status: u16, body: Option<&JsonValue>) -> (r: Result<GameId, GameModError>)
    ensures
        game_outcome_ok(status, spec_opt_val(body), r),
{
    if status == 200 {
        match body {
            Some(v) => match decode_game(v) {
                Some(g) => Ok(g),
                None => Err(GameModError::Decode),
            },
            None => Err(GameModError::Decode),
        }
    } else if status == 404 {
        match body {
            Some(v) => match decode_api_key_error(v) {
                Some(e) => Err(GameModError::InvalidAPIKey(e)),
                None => Err(GameModError::Decode),
            },
            None => Err(GameModError::Decode),
        }
    } else if status == 422 {
        Err(GameModError::NotObserved(422))
    } else {
        Err(GameModError::ContractViolation(status))
    }
}

/// Decode the single-game endpoint's response from its raw body text.
pub fn game_response(status: u16, body: &str) -> (r: Result<GameId, GameModError>)
    ensures
        game_outcome_ok(status, json_of(body@), r),
{
    let parsed = parse_json(body);
    match &parsed {
        Some(v) => game_outcome(status, Some(v)),
        None => game_outcome(status, None),
    }
}

/// The status table of the mod-files endpoint (see
/// [`updated_during_outcome_ok`] for the shared shape).
pub open spec fn mod_files_outcome_ok(
    status: u16,
    body: Option<JsonValue>,
    r: Result<ModFiles, GameModError>,
) -> bool {
    if status == 200 {
        match body {
            Some(v) => {
                &&& (r is Ok <==> mod_files_shape(v))
                &&& (r matches Ok(m) ==> mod_files_matches(v, m))
                &&& (!mod_files_shape(v) ==> r == Err::<ModFiles, GameModError>(
                    GameModError::Decode,
                ))
            },
            None => r == Err::<ModFiles, GameModError>(GameModError::Decode),
        }
    } else if status == 404 {
        match body {
            Some(v) => match spec_api_key_error_of(v) {
                Some(e) => r == Err::<ModFiles, GameModError>(GameModError::InvalidAPIKey(e)),
                None => r == Err::<ModFiles, GameModError>(GameModError::Decode),
            },
            None => r == Err::<ModFiles, GameModError>(GameModError::Decode),
        }
    } else if status == 422 {
        r == Err::<ModFiles, GameModError>(GameModError::NotObserved(422))
    } else {
        r == Err::<ModFiles, GameModError>(GameModError::ContractViolation(status))
    }
}

/// Decode the mod-files endpoint's response per its status table.
pub fn mod_files_outcome(status: u16, body: Option<&JsonValue>) -> (r: Result<
    ModFiles,
    GameModError,
>)
    ensures
        mod_files_outcome_ok(status, spec_opt_val(body), r),
{
    if status == 200 {
        match body {
            Some(v) => match decode_mod_files(v) {
                Some(m) => Ok(m),
                None => Err(GameModError::Decode),
            },
            None => Err(GameModError::Decode),
        }
    } else if status == 404 {
        match body {
            Some(v) => match decode_api_key_error(v) {
                Some(e) => Err(GameModError::InvalidAPIKey(e)),
                None => Err(GameModError::Decode),
            },
            None => Err(GameModError::Decode),
        }
    } else if status == 422 {
        Err(GameModError::NotObserved(422))
    } else {
        Err(GameModError::ContractViolation(status))
    }
}

/// Decode the mod-files endpoint's response from its raw body text.
pub fn mod_files_response(status: u16, body: &str) -> (r: Result<ModFiles, GameModError>)
    ensures
        mod_files_outcome_ok(status, json_of(body@), r),
{
    let parsed = parse_json(body);
    match &parsed {
        Some(v) => mod_files_outcome(status, Some(v)),
        None => mod_files_outcome(status, None),
    }
}

/// The status table of the single-file endpoint (see
/// [`updated_during_outcome_ok`] for the shared shape).
pub open spec fn mod_file_outcome_ok(
    status: u16,
    body: Option<JsonValue>,
    r: Result<ModFile, GameModError>,
) -> bool {
    if status == 200 {
        match body {
            Some(v) => {
                &&& (r is Ok <==> mod_file_shape(v))
                &&& (r matches Ok(m) ==> mod_file_matches(v, m))
                &&& (!mod_file_shape(v) ==> r == Err::<ModFile, GameModError>(
                    GameModError::Decode,
                ))
            },
            None => r == Err::<ModFile, GameModError>(GameModError::Decode),
        }
    } else if status == 404 {
        match body {
            Some(v) => match spec_api_key_error_of(v) {
                Some(e) => r == Err::<ModFile, GameModError>(GameModError::InvalidAPIKey(e)),
                None => r == Err::<ModFile, GameModError>(GameModError::Decode),
            },
            None => r == Err::<ModFile, GameModError>(GameModError::Decode),
        }
    } else if status == 422 {
        r == Err::<ModFile, GameModError>(GameModError::NotObserved(422))
    } else {
        r == Err::<ModFile, GameModError>(GameModError::ContractViolation(status))
    }
}

/// Decode the single-file endpoint's response per its status table.
pub fn mod_file_outcome(status: u16, body: Option<&JsonValue>) -> (r: Result<
    ModFile,
    GameModError,
>)
    ensures
        mod_file_outcome_ok(status, spec_opt_val(body), r),
{
    if status == 200 {
        match body {
            Some(v) => match decode_mod_file(v) {
                Some(m) => Ok(m),
                None => Err(GameModError::Decode),
            },
            None => Err(GameModError::Decode),
        }
    } else if status == 404 {
        match body {
            Some(v) => match decode_api_key_error(v) {
                Some(e) => Err(GameModError::InvalidAPIKey(e)),
                None => Err(GameModError::Decode),
            },
            None => Err(GameModError::Decode),
        }
    } else if status == 422 {
        Err(GameModError::NotObserved(422))
    } else {
        Err(GameModError::ContractViolation(status))
    }
}

/// Decode the single-file endpoint's response from its raw body text.
pub fn mod_file_response(status: u16, body: &str) -> (r: Result<ModFile, GameModError>)
    ensures
        mod_file_outcome_ok(status, json_of(body@), r),
{
    let parsed = parse_json(body);
    match &parsed {
        Some(v) => mod_file_outcome(status, Some(v)),
        None => mod_file_outcome(status, None),
    }
}


} // verus!
