//! Record decoders: each one turns a parsed JSON value into a typed entity,
//! failing exactly where the value does not have the record's documented
//! shape.
//!
//! Every decoder `decode_x` is pinned by two spec functions: `x_shape`
//! says on which values it succeeds, and `x_matches` says how the decoded
//! record's fields relate to the value's fields.

use vstd::prelude::*;

use crate::codec::{
    spec_category_of, spec_category_name_of, spec_endorse_status_of, spec_epoch_of, spec_iso_of,
    decode_category, decode_category_name, decode_endorse_status, decode_epoch,
    decode_iso_instant,
};
use crate::err::{InvalidAPIKeyError, InvalidGame, ModNotFoundError, UntrackedOrInvalidMod};
use crate::json::{JsonValue, lookup, spec_lookup};
use crate::request::{
    Category, CategoryName, Endorsement, Endorsements, EndorseStatus, FileUpdate, GameCategory,
    GameId, ModEntry, ModFile, ModFiles, ModId, ModUpdated, TrackedModsRaw, Validate,
};

verus! {

/// The field's value as a non-negative integer, if so shaped.
pub open spec fn field_u64(fs: Seq<(String, JsonValue)>, key: Seq<char>) -> Option<u64> {
    match spec_lookup(fs, key) {
        Some(JsonValue::UInt(n)) => Some(n),
        _ => None,
    }
}

/// The field's value as a boolean, if so shaped.
pub open spec fn field_bool(fs: Seq<(String, JsonValue)>, key: Seq<char>) -> Option<bool> {
    match spec_lookup(fs, key) {
        Some(JsonValue::Bool(b)) => Some(b),
        _ => None,
    }
}

/// The field's value as a boolean, read under `key` or, where `key` is
/// absent, under its alias.
pub open spec fn field_bool2(
    fs: Seq<(String, JsonValue)>,
    key: Seq<char>,
    alias: Seq<char>,
) -> Option<bool> {
    match spec_lookup(fs, key) {
        Some(JsonValue::Bool(b)) => Some(b),
        Some(_) => None,
        None => field_bool(fs, alias),
    }
}

/// The field's value as a string, if so shaped.
pub open spec fn field_string(fs: Seq<(String, JsonValue)>, key: Seq<char>) -> Option<String> {
    match spec_lookup(fs, key) {
        Some(JsonValue::Str(s)) => Some(s),
        _ => None,
    }
}

/// The field's value as a nullable string: `null` reads as "absent".
pub open spec fn field_opt_string(fs: Seq<(String, JsonValue)>, key: Seq<char>) -> Option<
    Option<String>,
> {
    match spec_lookup(fs, key) {
        Some(JsonValue::Str(s)) => Some(Some(s)),
        Some(JsonValue::Null) => Some(None),
        _ => None,
    }
}

/// The field's value as an epoch-encoded instant.
pub open spec fn field_epoch(fs: Seq<(String, JsonValue)>, key: Seq<char>) -> Option<i64> {
    match spec_lookup(fs, key) {
        Some(v) => spec_epoch_of(v),
        None => None,
    }
}

/// The field's value as an ISO-8601-encoded instant.
pub open spec fn field_iso(fs: Seq<(String, JsonValue)>, key: Seq<char>) -> Option<i64> {
    match spec_lookup(fs, key) {
        Some(v) => spec_iso_of(v),
        None => None,
    }
}

/// The field's value as an array's elements, if so shaped.
pub open spec fn field_array(fs: Seq<(String, JsonValue)>, key: Seq<char>) -> Option<
    Seq<JsonValue>,
> {
    match spec_lookup(fs, key) {
        Some(JsonValue::Array(a)) => Some(a@),
        _ => None,
    }
}

/// The field's value as a parent reference, via its codec.
pub open spec fn field_category(fs: Seq<(String, JsonValue)>, key: Seq<char>) -> Option<Category> {
    match spec_lookup(fs, key) {
        Some(v) => spec_category_of(v),
        None => None,
    }
}

/// The field's value as an endorsement status; present fields always
/// decode (the union is open), absent ones fail.
pub open spec fn field_endorse_status(fs: Seq<(String, JsonValue)>, key: Seq<char>) -> Option<
    EndorseStatus,
> {
    match spec_lookup(fs, key) {
        Some(v) => Some(spec_endorse_status_of(v)),
        None => None,
    }
}

/// The field's value as a file category, via its codec.
pub open spec fn field_category_name(fs: Seq<(String, JsonValue)>, key: Seq<char>) -> Option<
    CategoryName,
> {
    match spec_lookup(fs, key) {
        Some(JsonValue::Str(s)) => spec_category_name_of(s@),
        _ => None,
    }
}

fn get_u64(fields: &Vec<(String, JsonValue)>, key: &str) -> (r: Option<u64>)
    ensures
        r == field_u64(fields@, key@),
{
    match lookup(fields, key) {
        Some(JsonValue::UInt(n)) => Some(*n),
        _ => None,
    }
}

fn get_bool(fields: &Vec<(String, JsonValue)>, key: &str) -> (r: Option<bool>)
    ensures
        r == field_bool(fields@, key@),
{
    match lookup(fields, key) {
        Some(JsonValue::Bool(b)) => Some(*b),
        _ => None,
    }
}

fn get_bool2(fields: &Vec<(String, JsonValue)>, key: &str, alias: &str) -> (r: Option<bool>)
    ensures
        r == field_bool2(fields@, key@, alias@),
{
    match lookup(fields, key) {
        Some(JsonValue::Bool(b)) => Some(*b),
        Some(_) => None,
        None => get_bool(fields, alias),
    }
}

fn get_string(fields: &Vec<(String, JsonValue)>, key: &str) -> (r: Option<String>)
    ensures
        r == field_string(fields@, key@),
{
    match lookup(fields, key) {
        Some(JsonValue::Str(s)) => Some(s.clone()),
        _ => None,
    }
}

fn get_opt_string(fields: &Vec<(String, JsonValue)>, key: &str) -> (r: Option<Option<String>>)
    ensures
        r == field_opt_string(fields@, key@),
{
    match lookup(fields, key) {
        Some(JsonValue::Str(s)) => Some(Some(s.clone())),
        Some(JsonValue::Null) => Some(None),
        _ => None,
    }
}

fn get_epoch(fields: &Vec<(String, JsonValue)>, key: &str) -> (r: Option<i64>)
    ensures
        r == field_epoch(fields@, key@),
{
    match lookup(fields, key) {
        Some(v) => decode_epoch(v),
        None => None,
    }
}

fn get_iso(fields: &Vec<(String, JsonValue)>, key: &str) -> (r: Option<i64>)
    ensures
        r == field_iso(fields@, key@),
{
    match lookup(fields, key) {
        Some(v) => decode_iso_instant(v),
        None => None,
    }
}

fn get_array<'a>(fields: &'a Vec<(String, JsonValue)>, key: &str) -> (r: Option<&'a Vec<
    JsonValue,
>>)
    ensures
        match r {
            Some(a) => field_array(fields@, key@) == Some(a@),
            None => field_array(fields@, key@) is None,
        },
{
    match lookup(fields, key) {
        Some(JsonValue::Array(a)) => Some(a),
        _ => None,
    }
}

fn get_category(fields: &Vec<(String, JsonValue)>, key: &str) -> (r: Option<Category>)
    ensures
        r == field_category(fields@, key@),
{
    match lookup(fields, key) {
        Some(v) => decode_category(v),
        None => None,
    }
}

fn get_endorse_status(fields: &Vec<(String, JsonValue)>, key: &str) -> (r: Option<EndorseStatus>)
    ensures
        r == field_endorse_status(fields@, key@),
{
    match lookup(fields, key) {
        Some(v) => Some(decode_endorse_status(v)),
        None => None,
    }
}

fn get_category_name(fields: &Vec<(String, JsonValue)>, key: &str) -> (r: Option<CategoryName>)
    ensures
        r == field_category_name(fields@, key@),
{
    match lookup(fields, key) {
        Some(v) => decode_category_name(v),
        None => None,
    }
}

/// The invalid-API-key error body: an object with a message.
pub open spec fn spec_api_key_error_of(v: JsonValue) -> Option<InvalidAPIKeyError> {
    match v {
        JsonValue::Object(fs) => match field_string(fs@, "message"@) {
            Some(m) => Some(InvalidAPIKeyError { message: m }),
            None => None,
        },
        _ => None,
    }
}

/// Decode the invalid-API-key error body.
pub fn decode_api_key_error(v: &JsonValue) -> (r: Option<InvalidAPIKeyError>)
    ensures
        r == spec_api_key_error_of(*v),
{
    match v {
        JsonValue::Object(fs) => match get_string(fs, "message") {
            Some(m) => Some(InvalidAPIKeyError { message: m }),
            None => None,
        },
        _ => None,
    }
}

/// The mod-not-found error body: an object with a message.
pub open spec fn spec_mod_not_found_of(v: JsonValue) -> Option<ModNotFoundError> {
    match v {
        JsonValue::Object(fs) => match field_string(fs@, "message"@) {
            Some(m) => Some(ModNotFoundError { message: m }),
            None => None,
        },
        _ => None,
    }
}

/// Decode the mod-not-found error body.
pub fn decode_mod_not_found(v: &JsonValue) -> (r: Option<ModNotFoundError>)
    ensures
        r == spec_mod_not_found_of(*v),
{
    match v {
        JsonValue::Object(fs) => match get_string(fs, "message") {
            Some(m) => Some(ModNotFoundError { message: m }),
            None => None,
        },
        _ => None,
    }
}

/// The untracked-or-invalid error body: an object with a message.
pub open spec fn spec_untracked_of(v: JsonValue) -> Option<UntrackedOrInvalidMod> {
    match v {
        JsonValue::Object(fs) => match field_string(fs@, "message"@) {
            Some(m) => Some(UntrackedOrInvalidMod { message: m }),
            None => None,
        },
        _ => None,
    }
}

/// Decode the untracked-or-invalid error body.
pub fn decode_untracked(v: &JsonValue) -> (r: Option<UntrackedOrInvalidMod>)
    ensures
        r == spec_untracked_of(*v),
{
    match v {
        JsonValue::Object(fs) => match get_string(fs, "message") {
            Some(m) => Some(UntrackedOrInvalidMod { message: m }),
            None => None,
        },
        _ => None,
    }
}

/// The invalid-game error body: an object with a code and a message.
pub open spec fn spec_invalid_game_of(v: JsonValue) -> Option<InvalidGame> {
    match v {
        JsonValue::Object(fs) => match (field_u64(fs@, "code"@), field_string(fs@, "message"@)) {
            (Some(c), Some(m)) => Some(InvalidGame { code: c, message: m }),
            _ => None,
        },
        _ => None,
    }
}

/// Decode the invalid-game error body.
pub fn decode_invalid_game(v: &JsonValue) -> (r: Option<InvalidGame>)
    ensures
        r == spec_invalid_game_of(*v),
{
    match v {
        JsonValue::Object(fs) => match (get_u64(fs, "code"), get_string(fs, "message")) {
            (Some(c), Some(m)) => Some(InvalidGame { code: c, message: m }),
            _ => None,
        },
        _ => None,
    }
}

/// A well-formed validate body: all nine identity fields present with
/// their documented shapes (the premium/supporter pairs under their
/// punctuation-bearing names or the plain aliases).
pub open spec fn validate_shape(v: JsonValue) -> bool {
    match v {
        JsonValue::Object(fs) => {
            &&& field_u64(fs@, "user_id"@) is Some
            &&& field_string(fs@, "key"@) is Some
            &&& field_string(fs@, "name"@) is Some
            &&& field_bool2(fs@, "is_premium?"@, "is_premium_q"@) is Some
            &&& field_bool2(fs@, "is_supporter?"@, "is_supporter_q"@) is Some
            &&& field_string(fs@, "email"@) is Some
            &&& field_string(fs@, "profile_url"@) is Some
            &&& field_bool(fs@, "is_premium"@) is Some
            &&& field_bool(fs@, "is_supporter"@) is Some
        },
        _ => false,
    }
}

/// The decoded identity's fields, each read from its wire field.
pub open spec fn validate_matches(v: JsonValue, u: Validate) -> bool {
    match v {
        JsonValue::Object(fs) => {
            &&& field_u64(fs@, "user_id"@) == Some(u.user_id)
            &&& field_string(fs@, "key"@) == Some(u.key)
            &&& field_string(fs@, "name"@) == Some(u.name)
            &&& field_bool2(fs@, "is_premium?"@, "is_premium_q"@) == Some(u.is_premium_q)
            &&& field_bool2(fs@, "is_supporter?"@, "is_supporter_q"@) == Some(u.is_supporter_q)
            &&& field_string(fs@, "email"@) == Some(u.email)
            &&& field_string(fs@, "profile_url"@) == Some(u.profile_url)
            &&& field_bool(fs@, "is_premium"@) == Some(u.is_premium)
            &&& field_bool(fs@, "is_supporter"@) == Some(u.is_supporter)
        },
        _ => false,
    }
}

/// Decode a validate body into the user's identity.
pub fn decode_validate(v: &JsonValue) -> (r: Option<Validate>)
    ensures
        r is Some <==> validate_shape(*v),
        r matches Some(u) ==> validate_matches(*v, u),
{
    let fs = match v {
        JsonValue::Object(fs) => fs,
        _ => {
            return None;
        },
    };
    let user_id = match get_u64(fs, "user_id") {
        Some(x) => x,
        None => {
            return None;
        },
    };
    let key = match get_string(fs, "key") {
        Some(x) => x,
        None => {
            return None;
        },
    };
    let name = match get_string(fs, "name") {
        Some(x) => x,
        None => {
            return None;
        },
    };
    let is_premium_q = match get_bool2(fs, "is_premium?", "is_premium_q") {
        Some(x) => x,
        None => {
            return None;
        },
    };
    let is_supporter_q = match get_bool2(fs, "is_supporter?", "is_supporter_q") {
        Some(x) => x,
        None => {
            return None;
        },
    };
    let email = match get_string(fs, "email") {
        Some(x) => x,
        None => {
            return None;
        },
    };
    let profile_url = match get_string(fs, "profile_url") {
        Some(x) => x,
        None => {
            return None;
        },
    };
    let is_premium = match get_bool(fs, "is_premium") {
        Some(x) => x,
        None => {
            return None;
        },
    };
    let is_supporter = match get_bool(fs, "is_supporter") {
        Some(x) => x,
        None => {
            return None;
        },
    };
    Some(
        Validate {
            user_id,
            key,
            name,
            is_premium_q,
            is_supporter_q,
            email,
            profile_url,
            is_premium,
            is_supporter,
        },
    )
}

/// A well-formed tracked-mods entry: a numeric mod id and a domain name.
pub open spec fn mod_entry_shape(v: JsonValue) -> bool {
    match v {
        JsonValue::Object(fs) => {
            &&& field_u64(fs@, "mod_id"@) is Some
            &&& field_string(fs@, "domain_name"@) is Some
        },
        _ => false,
    }
}

/// The decoded entry's fields, each read from its wire field.
pub open spec fn mod_entry_matches(v: JsonValue, e: ModEntry) -> bool {
    match v {
        JsonValue::Object(fs) => {
            &&& field_u64(fs@, "mod_id"@) == Some(e.mod_id@)
            &&& field_string(fs@, "domain_name"@) == Some(e.domain_name)
        },
        _ => false,
    }
}

/// Decode one tracked-mods entry.
pub fn decode_mod_entry(v: &JsonValue) -> (r: Option<ModEntry>)
    ensures
        r is Some <==> mod_entry_shape(*v),
        r matches Some(e) ==> mod_entry_matches(*v, e),
{
    let fs = match v {
        JsonValue::Object(fs) => fs,
        _ => {
            return None;
        },
    };
    let mod_id = match get_u64(fs, "mod_id") {
        Some(x) => ModId::from_u64(x),
        None => {
            return None;
        },
    };
    let domain_name = match get_string(fs, "domain_name") {
        Some(x) => x,
        None => {
            return None;
        },
    };
    Some(ModEntry { mod_id, domain_name })
}

/// A well-formed tracked-mods body: an array of well-formed entries.
pub open spec fn tracked_mods_shape(v: JsonValue) -> bool {
    match v {
        JsonValue::Array(arr) => forall|i: int|
            0 <= i < arr@.len() ==> mod_entry_shape(#[trigger] arr@[i]),
        _ => false,
    }
}

/// The decoded list pairs up with the wire array, entry for entry.
pub open spec fn tracked_mods_matches(v: JsonValue, t: TrackedModsRaw) -> bool {
    match v {
        JsonValue::Array(arr) => t.mods@.len() == arr@.len() && forall|i: int|
            0 <= i < arr@.len() ==> mod_entry_matches(#[trigger] arr@[i], t.mods@[i]),
        _ => false,
    }
}

/// Decode a tracked-mods body.
pub fn decode_tracked_mods(v: &JsonValue) -> (r: Option<TrackedModsRaw>)
    ensures
        r is Some <==> tracked_mods_shape(*v),
        r matches Some(t) ==> tracked_mods_matches(*v, t),
{
    let arr = match v {
        JsonValue::Array(arr) => arr,
        _ => {
            return None;
        },
    };
    let n = arr.len();
    let mut mods: Vec<ModEntry> = Vec::new();
    let mut i: usize = 0;
    while i < n
        invariant
            *v == JsonValue::Array(*arr),
            n == arr@.len(),
            0 <= i <= n,
            mods@.len() == i,
            forall|j: int| 0 <= j < i ==> mod_entry_shape(#[trigger] arr@[j]),
            forall|j: int| 0 <= j < i ==> mod_entry_matches(#[trigger] arr@[j], mods@[j]),
        decreases n - i,
    {
        match decode_mod_entry(&arr[i]) {
            Some(e) => mods.push(e),
            None => {
                proof {
                    let a = v->Array_0;
                    assert(a == *arr);
                    assert(!mod_entry_shape(a@[i as int]));
                    assert(!tracked_mods_shape(*v));
                }
                return None;
            },
        }
        i += 1;
    }
    Some(TrackedModsRaw { mods })
}

/// A well-formed endorsement record: id, domain, ISO-8601 date, nullable
/// version, and a status field (whose union is open, so any present value
/// decodes).
pub open spec fn endorsement_shape(v: JsonValue) -> bool {
    match v {
        JsonValue::Object(fs) => {
            &&& field_u64(fs@, "mod_id"@) is Some
            &&& field_string(fs@, "domain_name"@) is Some
            &&& field_iso(fs@, "date"@) is Some
            &&& field_opt_string(fs@, "version"@) is Some
            &&& field_endorse_status(fs@, "status"@) is Some
        },
        _ => false,
    }
}

/// The decoded endorsement's fields, each read from its wire field.
pub open spec fn endorsement_matches(v: JsonValue, e: Endorsement) -> bool {
    match v {
        JsonValue::Object(fs) => {
            &&& field_u64(fs@, "mod_id"@) == Some(e.mod_id@)
            &&& field_string(fs@, "domain_name"@) == Some(e.domain_name)
            &&& field_iso(fs@, "date"@) == Some(e.date)
            &&& field_opt_string(fs@, "version"@) == Some(e.version)
            &&& field_endorse_status(fs@, "status"@) == Some(e.status)
        },
        _ => false,
    }
}

/// Decode one endorsement record.
pub fn decode_endorsement(v: &JsonValue) -> (r: Option<Endorsement>)
    ensures
        r is Some <==> endorsement_shape(*v),
        r matches Some(e) ==> endorsement_matches(*v, e),
{
    let fs = match v {
        JsonValue::Object(fs) => fs,
        _ => {
            return None;
        },
    };
    let mod_id = match get_u64(fs, "mod_id") {
        Some(x) => ModId::from_u64(x),
        None => {
            return None;
        },
    };
    let domain_name = match get_string(fs, "domain_name") {
        Some(x) => x,
        None => {
            return None;
        },
    };
    let date = match get_iso(fs, "date") {
        Some(x) => x,
        None => {
            return None;
        },
    };
    let version = match get_opt_string(fs, "version") {
        Some(x) => x,
        None => {
            return None;
        },
    };
    let status = match get_endorse_status(fs, "status") {
        Some(x) => x,
        None => {
            return None;
        },
    };
    Some(Endorsement { mod_id, domain_name, date, version, status })
}

/// A well-formed endorsements body: an array of well-formed records.
pub open spec fn endorsements_shape(v: JsonValue) -> bool {
    match v {
        JsonValue::Array(arr) => forall|i: int|
            0 <= i < arr@.len() ==> endorsement_shape(#[trigger] arr@[i]),
        _ => false,
    }
}

/// The decoded list pairs up with the wire array, record for record.
pub open spec fn endorsements_matches(v: JsonValue, t: Endorsements) -> bool {
    match v {
        JsonValue::Array(arr) => t.mods@.len() == arr@.len() && forall|i: int|
            0 <= i < arr@.len() ==> endorsement_matches(#[trigger] arr@[i], t.mods@[i]),
        _ => false,
    }
}

/// Decode an endorsements body.
pub fn decode_endorsements(v: &JsonValue) -> (r: Option<Endorsements>)
    ensures
        r is Some <==> endorsements_shape(*v),
        r matches Some(t) ==> endorsements_matches(*v, t),
{
    let arr = match v {
        JsonValue::Array(arr) => arr,
        _ => {
            return None;
        },
    };
    let n = arr.len();
    let mut mods: Vec<Endorsement> = Vec::new();
    let mut i: usize = 0;
    while i < n
        invariant
            *v == JsonValue::Array(*arr),
            n == arr@.len(),
            0 <= i <= n,
            mods@.len() == i,
            forall|j: int| 0 <= j < i ==> endorsement_shape(#[trigger] arr@[j]),
            forall|j: int| 0 <= j < i ==> endorsement_matches(#[trigger] arr@[j], mods@[j]),
        decreases n - i,
    {
        match decode_endorsement(&arr[i]) {
            Some(e) => mods.push(e),
            None => {
                proof {
                    let a = v->Array_0;
                    assert(a == *arr);
                    assert(!endorsement_shape(a@[i as int]));
                    assert(!endorsements_shape(*v));
                }
                return None;
            },
        }
        i += 1;
    }
    Some(Endorsements { mods })
}

/// A well-formed game category: id, name, and the ambiguous parent field.
pub open spec fn game_category_shape(v: JsonValue) -> bool {
    match v {
        JsonValue::Object(fs) => {
            &&& field_u64(fs@, "category_id"@) is Some
            &&& field_string(fs@, "name"@) is Some
            &&& field_category(fs@, "parent_category"@) is Some
        },
        _ => false,
    }
}

/// The decoded category's fields, each read from its wire field.
pub open spec fn game_category_matches(v: JsonValue, c: GameCategory) -> bool {
    match v {
        JsonValue::Object(fs) => {
            &&& field_u64(fs@, "category_id"@) == Some(c.category_id)
            &&& field_string(fs@, "name"@) == Some(c.name)
            &&& field_category(fs@, "parent_category"@) == Some(c.parent_category)
        },
        _ => false,
    }
}

/// Decode one game category.
pub fn decode_game_category(v: &JsonValue) -> (r: Option<GameCategory>)
    ensures
        r is Some <==> game_category_shape(*v),
        r matches Some(c) ==> game_category_matches(*v, c),
{
    let fs = match v {
        JsonValue::Object(fs) => fs,
        _ => {
            return None;
        },
    };
    let category_id = match get_u64(fs, "category_id") {
        Some(x) => x,
        None => {
            return None;
        },
    };
    let name = match get_string(fs, "name") {
        Some(x) => x,
        None => {
            return None;
        },
    };
    let parent_category = match get_category(fs, "parent_category") {
        Some(x) => x,
        None => {
            return None;
        },
    };
    Some(GameCategory { category_id, name, parent_category })
}


/// Every element of `arr` is a well-formed game category.
pub open spec fn all_game_category_shapes(arr: Seq<JsonValue>) -> bool {
    forall|i: int| 0 <= i < arr.len() ==> game_category_shape(#[trigger] arr[i])
}

/// `cs` pairs up with `arr`, category for category.
pub open spec fn all_game_category_matches(arr: Seq<JsonValue>, cs: Seq<GameCategory>) -> bool {
    cs.len() == arr.len() && forall|i: int|
        0 <= i < arr.len() ==> game_category_matches(#[trigger] arr[i], cs[i])
}

fn decode_category_list(arr: &Vec<JsonValue>) -> (r: Option<Vec<GameCategory>>)
    ensures
        match r {
            Some(cs) => all_game_category_shapes(arr@) && all_game_category_matches(arr@, cs@),
            None => !all_game_category_shapes(arr@),
        },
{
    let n = arr.len();
    let mut cs: Vec<GameCategory> = Vec::new();
    let mut i: usize = 0;
    while i < n
        invariant
            n == arr@.len(),
            0 <= i <= n,
            cs@.len() == i,
            forall|j: int| 0 <= j < i ==> game_category_shape(#[trigger] arr@[j]),
            forall|j: int| 0 <= j < i ==> game_category_matches(#[trigger] arr@[j], cs@[j]),
        decreases n - i,
    {
        match decode_game_category(&arr[i]) {
            Some(c) => cs.push(c),
            None => {
                return None;
            },
        }
        i += 1;
    }
    Some(cs)
}

/// A well-formed game record: twelve scalar fields and a category list of
/// well-formed categories.
pub open spec fn game_shape(v: JsonValue) -> bool {
    match v {
        JsonValue::Object(fs) => {
            &&& field_u64(fs@, "id"@) is Some
            &&& field_string(fs@, "name"@) is Some
            &&& field_string(fs@, "forum_url"@) is Some
            &&& field_string(fs@, "nexusmods_url"@) is Some
            &&& field_string(fs@, "genre"@) is Some
            &&& field_u64(fs@, "file_count"@) is Some
            &&& field_string(fs@, "domain_name"@) is Some
            &&& field_epoch(fs@, "approved_date"@) is Some
            &&& field_u64(fs@, "file_views"@) is Some
            &&& field_u64(fs@, "authors"@) is Some
            &&& field_u64(fs@, "file_endorsements"@) is Some
            &&& field_u64(fs@, "mods"@) is Some
            &&& field_array(fs@, "categories"@) matches Some(arr) && all_game_category_shapes(
                arr,
            )
        },
        _ => false,
    }
}

/// The decoded game's fields, each read from its wire field; the category
/// list pairs up with the wire array.
pub open spec fn game_matches(v: JsonValue, g: GameId) -> bool {
    match v {
        JsonValue::Object(fs) => {
            &&& field_u64(fs@, "id"@) == Some(g.id)
            &&& field_string(fs@, "name"@) == Some(g.name)
            &&& field_string(fs@, "forum_url"@) == Some(g.forum_url)
            &&& field_string(fs@, "nexusmods_url"@) == Some(g.nexusmods_url)
            &&& field_string(fs@, "genre"@) == Some(g.genre)
            &&& field_u64(fs@, "file_count"@) == Some(g.file_count)
            &&& field_string(fs@, "domain_name"@) == Some(g.domain_name)
            &&& field_epoch(fs@, "approved_date"@) == Some(g.approved_date)
            &&& field_u64(fs@, "file_views"@) == Some(g.file_views)
            &&& field_u64(fs@, "authors"@) == Some(g.authors)
            &&& field_u64(fs@, "file_endorsements"@) == Some(g.file_endorsements)
            &&& field_u64(fs@, "mods"@) == Some(g.mods)
            &&& field_array(fs@, "categories"@) matches Some(arr) && all_game_category_matches(
                arr,
                g.categories@,
            )
        },
        _ => false,
    }
}

/// Decode one game record.
pub fn decode_game(v: &JsonValue) -> (r: Option<GameId>)
    ensures
        r is Some <==> game_shape(*v),
        r matches Some(g) ==> game_matches(*v, g),
{
    let fs = match v {
        JsonValue::Object(fs) => fs,
        _ => {
            return None;
        },
    };
    let id = match get_u64(fs, "id") {
        Some(x) => x,
        None => {
            return None;
        },
    };
    let name = match get_string(fs, "name") {
        Some(x) => x,
        None => {
            return None;
        },
    };
    let forum_url = match get_string(fs, "forum_url") {
        Some(x) => x,
        None => {
            return None;
        },
    };
    let nexusmods_url = match get_string(fs, "nexusmods_url") {
        Some(x) => x,
        None => {
            return None;
        },
    };
    let genre = match get_string(fs, "genre") {
        Some(x) => x,
        None => {
            return None;
        },
    };
    let file_count = match get_u64(fs, "file_count") {
        Some(x) => x,
        None => {
            return None;
        },
    };
    let domain_name = match get_string(fs, "domain_name") {
        Some(x) => x,
        None => {
            return None;
        },
    };
    let approved_date = match get_epoch(fs, "approved_date") {
        Some(x) => x,
        None => {
            return None;
        },
    };
    let file_views = match get_u64(fs, "file_views") {
        Some(x) => x,
        None => {
            return None;
        },
    };
    let authors = match get_u64(fs, "authors") {
        Some(x) => x,
        None => {
            return None;
        },
    };
    let file_endorsements = match get_u64(fs, "file_endorsements") {
        Some(x) => x,
        None => {
            return None;
        },
    };
    let mods = match get_u64(fs, "mods") {
        Some(x) => x,
        None => {
            return None;
        },
    };
    let cats_arr = match get_array(fs, "categories") {
        Some(a) => a,
        None => {
            return None;
        },
    };
    let categories = match decode_category_list(cats_arr) {
        Some(cs) => cs,
        None => {
            proof {
                assert(*fs == v->Object_0);
                assert(field_array(v->Object_0@, "categories"@) == Some(cats_arr@));
                assert(!game_shape(*v));
            }
            return None;
        },
    };
    Some(
        GameId {
            id,
            name,
            forum_url,
            nexusmods_url,
            genre,
            file_count,
            domain_name,
            approved_date,
            file_views,
            authors,
            file_endorsements,
            mods,
            categories,
        },
    )
}

/// A well-formed games body: an array of well-formed game records.
pub open spec fn game_list_shape(v: JsonValue) -> bool {
    match v {
        JsonValue::Array(arr) => forall|i: int|
            0 <= i < arr@.len() ==> game_shape(#[trigger] arr@[i]),
        _ => false,
    }
}

/// The decoded list pairs up with the wire array, game for game.
pub open spec fn game_list_matches(v: JsonValue, gs: Seq<GameId>) -> bool {
    match v {
        JsonValue::Array(arr) => gs.len() == arr@.len() && forall|i: int|
            0 <= i < arr@.len() ==> game_matches(#[trigger] arr@[i], gs[i]),
        _ => false,
    }
}

/// Decode a games body.
pub fn decode_game_list(v: &JsonValue) -> (r: Option<Vec<GameId>>)
    ensures
        r is Some <==> game_list_shape(*v),
        r matches Some(gs) ==> game_list_matches(*v, gs@),
{
    let arr = match v {
        JsonValue::Array(arr) => arr,
        _ => {
            return None;
        },
    };
    let n = arr.len();
    let mut gs: Vec<GameId> = Vec::new();
    let mut i: usize = 0;
    while i < n
        invariant
            *v == JsonValue::Array(*arr),
            n == arr@.len(),
            0 <= i <= n,
            gs@.len() == i,
            forall|j: int| 0 <= j < i ==> game_shape(#[trigger] arr@[j]),
            forall|j: int| 0 <= j < i ==> game_matches(#[trigger] arr@[j], gs@[j]),
        decreases n - i,
    {
        match decode_game(&arr[i]) {
            Some(g) => gs.push(g),
            None => {
                proof {
                    let a = v->Array_0;
                    assert(a == *arr);
                    assert(!game_shape(a@[i as int]));
                    assert(!game_list_shape(*v));
                }
                return None;
            },
        }
        i += 1;
    }
    Some(gs)
}


/// Every element of `arr` is a non-negative integer.
pub open spec fn all_uint_array(arr: Seq<JsonValue>) -> bool {
    forall|i: int| 0 <= i < arr.len() ==> (#[trigger] arr[i]) is UInt
}

/// `xs` pairs up with `arr`, integer for integer.
pub open spec fn uint_array_matches(arr: Seq<JsonValue>, xs: Seq<u64>) -> bool {
    xs.len() == arr.len() && forall|i: int|
        0 <= i < arr.len() ==> #[trigger] arr[i] == JsonValue::UInt(xs[i])
}

fn decode_u64_array(arr: &Vec<JsonValue>) -> (r: Option<Vec<u64>>)
    ensures
        match r {
            Some(xs) => all_uint_array(arr@) && uint_array_matches(arr@, xs@),
            None => !all_uint_array(arr@),
        },
{
    let n = arr.len();
    let mut xs: Vec<u64> = Vec::new();
    let mut i: usize = 0;
    while i < n
        invariant
            n == arr@.len(),
            0 <= i <= n,
            xs@.len() == i,
            forall|j: int| 0 <= j < i ==> #[trigger] arr@[j] == JsonValue::UInt(xs@[j]),
        decreases n - i,
    {
        match &arr[i] {
            JsonValue::UInt(x) => xs.push(*x),
            _ => {
                return None;
            },
        }
        i += 1;
    }
    Some(xs)
}

/// A well-formed mod-file record: the historical id array (integers), the
/// scalar fields, the six-tag category, the dual timestamp encodings, and
/// the nullable strings.
pub open spec fn mod_file_shape(v: JsonValue) -> bool {
    match v {
        JsonValue::Object(fs) => {
            &&& field_array(fs@, "id"@) matches Some(a) && all_uint_array(a)
            &&& field_u64(fs@, "uid"@) is Some
            &&& field_u64(fs@, "file_id"@) is Some
            &&& field_string(fs@, "name"@) is Some
            &&& field_string(fs@, "version"@) is Some
            &&& field_u64(fs@, "category_id"@) is Some
            &&& field_category_name(fs@, "category_name"@) is Some
            &&& field_bool(fs@, "is_primary"@) is Some
            &&& field_u64(fs@, "size"@) is Some
            &&& field_string(fs@, "file_name"@) is Some
            &&& field_epoch(fs@, "uploaded_timestamp"@) is Some
            &&& field_iso(fs@, "uploaded_time"@) is Some
            &&& field_string(fs@, "mod_version"@) is Some
            &&& field_opt_string(fs@, "external_virus_scan_url"@) is Some
            &&& field_opt_string(fs@, "description"@) is Some
            &&& field_u64(fs@, "size_kb"@) is Some
            &&& field_u64(fs@, "size_in_bytes"@) is Some
            &&& field_opt_string(fs@, "changelog_html"@) is Some
            &&& field_string(fs@, "content_preview_link"@) is Some
        },
        _ => false,
    }
}

/// The decoded file's fields, each read from its wire field.
pub open spec fn mod_file_matches(v: JsonValue, m: ModFile) -> bool {
    match v {
        JsonValue::Object(fs) => {
            &&& field_array(fs@, "id"@) matches Some(a) && uint_array_matches(a, m.id@)
            &&& field_u64(fs@, "uid"@) == Some(m.uid)
            &&& field_u64(fs@, "file_id"@) == Some(m.file_id)
            &&& field_string(fs@, "name"@) == Some(m.name)
            &&& field_string(fs@, "version"@) == Some(m.version)
            &&& field_u64(fs@, "category_id"@) == Some(m.category_id)
            &&& field_category_name(fs@, "category_name"@) == Some(m.category_name)
            &&& field_bool(fs@, "is_primary"@) == Some(m.is_primary)
            &&& field_u64(fs@, "size"@) == Some(m.size)
            &&& field_string(fs@, "file_name"@) == Some(m.file_name)
            &&& field_epoch(fs@, "uploaded_timestamp"@) == Some(m.uploaded_timestamp)
            &&& field_iso(fs@, "uploaded_time"@) == Some(m.uploaded_time)
            &&& field_string(fs@, "mod_version"@) == Some(m.mod_version)
            &&& field_opt_string(fs@, "external_virus_scan_url"@) == Some(
                m.external_virus_scan_url,
            )
            &&& field_opt_string(fs@, "description"@) == Some(m.description)
            &&& field_u64(fs@, "size_kb"@) == Some(m.size_kb)
            &&& field_u64(fs@, "size_in_bytes"@) == Some(m.size_in_bytes)
            &&& field_opt_string(fs@, "changelog_html"@) == Some(m.changelog_html)
            &&& field_string(fs@, "content_preview_link"@) == Some(m.content_preview_link)
        },
        _ => false,
    }
}

/// Decode one mod-file record.
pub fn decode_mod_file(v: &JsonValue) -> (r: Option<ModFile>)
    ensures
        r is Some <==> mod_file_shape(*v),
        r matches Some(m) ==> mod_file_matches(*v, m),
{
    let fs = match v {
        JsonValue::Object(fs) => fs,
        _ => {
            return None;
        },
    };
    let id_arr = match get_array(fs, "id") {
        Some(a) => a,
        None => {
            return None;
        },
    };
    let id = match decode_u64_array(id_arr) {
        Some(xs) => xs,
        None => {
            proof {
                assert(*fs == v->Object_0);
                assert(field_array(v->Object_0@, "id"@) == Some(id_arr@));
                assert(!mod_file_shape(*v));
            }
            return None;
        },
    };
    let uid = match get_u64(fs, "uid") {
        Some(x) => x,
        None => {
            return None;
        },
    };
    let file_id = match get_u64(fs, "file_id") {
        Some(x) => x,
        None => {
            return None;
        },
    };
    let name = match get_string(fs, "name") {
        Some(x) => x,
        None => {
            return None;
        },
    };
    let version = match get_string(fs, "version") {
        Some(x) => x,
        None => {
            return None;
        },
    };
    let category_id = match get_u64(fs, "category_id") {
        Some(x) => x,
        None => {
            return None;
        },
    };
    let category_name = match get_category_name(fs, "category_name") {
        Some(x) => x,
        None => {
            return None;
        },
    };
    let is_primary = match get_bool(fs, "is_primary") {
        Some(x) => x,
        None => {
            return None;
        },
    };
    let size = match get_u64(fs, "size") {
        Some(x) => x,
        None => {
            return None;
        },
    };
    let file_name = match get_string(fs, "file_name") {
        Some(x) => x,
        None => {
            return None;
        },
    };
    let uploaded_timestamp = match get_epoch(fs, "uploaded_timestamp") {
        Some(x) => x,
        None => {
            return None;
        },
    };
    let uploaded_time = match get_iso(fs, "uploaded_time") {
        Some(x) => x,
        None => {
            return None;
        },
    };
    let mod_version = match get_string(fs, "mod_version") {
        Some(x) => x,
        None => {
            return None;
        },
    };
    let external_virus_scan_url = match get_opt_string(fs, "external_virus_scan_url") {
        Some(x) => x,
        None => {
            return None;
        },
    };
    let description = match get_opt_string(fs, "description") {
        Some(x) => x,
        None => {
            return None;
        },
    };
    let size_kb = match get_u64(fs, "size_kb") {
        Some(x) => x,
        None => {
            return None;
        },
    };
    let size_in_bytes = match get_u64(fs, "size_in_bytes") {
        Some(x) => x,
        None => {
            return None;
        },
    };
    let changelog_html = match get_opt_string(fs, "changelog_html") {
        Some(x) => x,
        None => {
            return None;
        },
    };
    let content_preview_link = match get_string(fs, "content_preview_link") {
        Some(x) => x,
        None => {
            return None;
        },
    };
    Some(
        ModFile {
            id,
            uid,
            file_id,
            name,
            version,
            category_id,
            category_name,
            is_primary,
            size,
            file_name,
            uploaded_timestamp,
            uploaded_time,
            mod_version,
            external_virus_scan_url,
            description,
            size_kb,
            size_in_bytes,
            changelog_html,
            content_preview_link,
        },
    )
}

/// A well-formed file-update record: the two ids, the two names, and the
/// dual timestamp encodings.
pub open spec fn file_update_shape(v: JsonValue) -> bool {
    match v {
        JsonValue::Object(fs) => {
            &&& field_u64(fs@, "old_file_id"@) is Some
            &&& field_u64(fs@, "new_file_id"@) is Some
            &&& field_string(fs@, "old_file_name"@) is Some
            &&& field_string(fs@, "new_file_name"@) is Some
            &&& field_epoch(fs@, "uploaded_timestamp"@) is Some
            &&& field_iso(fs@, "uploaded_time"@) is Some
        },
        _ => false,
    }
}

/// The decoded update's fields, each read from its wire field.
pub open spec fn file_update_matches(v: JsonValue, u: FileUpdate) -> bool {
    match v {
        JsonValue::Object(fs) => {
            &&& field_u64(fs@, "old_file_id"@) == Some(u.old_file_id)
            &&& field_u64(fs@, "new_file_id"@) == Some(u.new_file_id)
            &&& field_string(fs@, "old_file_name"@) == Some(u.old_file_name)
            &&& field_string(fs@, "new_file_name"@) == Some(u.new_file_name)
            &&& field_epoch(fs@, "uploaded_timestamp"@) == Some(u.uploaded_timestamp)
            &&& field_iso(fs@, "uploaded_time"@) == Some(u.uploaded_time)
        },
        _ => false,
    }
}

/// Decode one file-update record.
pub fn decode_file_update(v: &JsonValue) -> (r: Option<FileUpdate>)
    ensures
        r is Some <==> file_update_shape(*v),
        r matches Some(u) ==> file_update_matches(*v, u),
{
    let fs = match v {
        JsonValue::Object(fs) => fs,
        _ => {
            return None;
        },
    };
    let old_file_id = match get_u64(fs, "old_file_id") {
        Some(x) => x,
        None => {
            return None;
        },
    };
    let new_file_id = match get_u64(fs, "new_file_id") {
        Some(x) => x,
        None => {
            return None;
        },
    };
    let old_file_name = match get_string(fs, "old_file_name") {
        Some(x) => x,
        None => {
            return None;
        },
    };
    let new_file_name = match get_string(fs, "new_file_name") {
        Some(x) => x,
        None => {
            return None;
        },
    };
    let uploaded_timestamp = match get_epoch(fs, "uploaded_timestamp") {
        Some(x) => x,
        None => {
            return None;
        },
    };
    let uploaded_time = match get_iso(fs, "uploaded_time") {
        Some(x) => x,
        None => {
            return None;
        },
    };
    Some(
        FileUpdate {
            old_file_id,
            new_file_id,
            old_file_name,
            new_file_name,
            uploaded_timestamp,
            uploaded_time,
        },
    )
}


/// Every element of `arr` is a well-formed mod-file record.
pub open spec fn all_mod_file_shapes(arr: Seq<JsonValue>) -> bool {
    forall|i: int| 0 <= i < arr.len() ==> mod_file_shape(#[trigger] arr[i])
}

/// `ms` pairs up with `arr`, file for file.
pub open spec fn all_mod_file_matches(arr: Seq<JsonValue>, ms: Seq<ModFile>) -> bool {
    ms.len() == arr.len() && forall|i: int|
        0 <= i < arr.len() ==> mod_file_matches(#[trigger] arr[i], ms[i])
}

/// Every element of `arr` is a well-formed file-update record.
pub open spec fn all_file_update_shapes(arr: Seq<JsonValue>) -> bool {
    forall|i: int| 0 <= i < arr.len() ==> file_update_shape(#[trigger] arr[i])
}

/// `us` pairs up with `arr`, update for update.
pub open spec fn all_file_update_matches(arr: Seq<JsonValue>, us: Seq<FileUpdate>) -> bool {
    us.len() == arr.len() && forall|i: int|
        0 <= i < arr.len() ==> file_update_matches(#[trigger] arr[i], us[i])
}

fn decode_file_list(arr: &Vec<JsonValue>) -> (r: Option<Vec<ModFile>>)
    ensures
        match r {
            Some(ms) => all_mod_file_shapes(arr@) && all_mod_file_matches(arr@, ms@),
            None => !all_mod_file_shapes(arr@),
        },
{
    let n = arr.len();
    let mut ms: Vec<ModFile> = Vec::new();
    let mut i: usize = 0;
    while i < n
        invariant
            n == arr@.len(),
            0 <= i <= n,
            ms@.len() == i,
            forall|j: int| 0 <= j < i ==> mod_file_shape(#[trigger] arr@[j]),
            forall|j: int| 0 <= j < i ==> mod_file_matches(#[trigger] arr@[j], ms@[j]),
        decreases n - i,
    {
        match decode_mod_file(&arr[i]) {
            Some(m) => ms.push(m),
            None => {
                return None;
            },
        }
        i += 1;
    }
    Some(ms)
}

fn decode_update_list(arr: &Vec<JsonValue>) -> (r: Option<Vec<FileUpdate>>)
    ensures
        match r {
            Some(us) => all_file_update_shapes(arr@) && all_file_update_matches(arr@, us@),
            None => !all_file_update_shapes(arr@),
        },
{
    let n = arr.len();
    let mut us: Vec<FileUpdate> = Vec::new();
    let mut i: usize = 0;
    while i < n
        invariant
            n == arr@.len(),
            0 <= i <= n,
            us@.len() == i,
            forall|j: int| 0 <= j < i ==> file_update_shape(#[trigger] arr@[j]),
            forall|j: int| 0 <= j < i ==> file_update_matches(#[trigger] arr@[j], us@[j]),
        decreases n - i,
    {
        match decode_file_update(&arr[i]) {
            Some(u) => us.push(u),
            None => {
                return None;
            },
        }
        i += 1;
    }
    Some(us)
}

/// A well-formed mod-files body: a file array and a parallel update array.
pub open spec fn mod_files_shape(v: JsonValue) -> bool {
    match v {
        JsonValue::Object(fs) => {
            &&& field_array(fs@, "files"@) matches Some(fa) && all_mod_file_shapes(fa)
            &&& field_array(fs@, "file_updates"@) matches Some(ua) && all_file_update_shapes(ua)
        },
        _ => false,
    }
}

/// The decoded bundle's two lists pair up with the two wire arrays.
pub open spec fn mod_files_matches(v: JsonValue, m: ModFiles) -> bool {
    match v {
        JsonValue::Object(fs) => {
            &&& field_array(fs@, "files"@) matches Some(fa) && all_mod_file_matches(fa, m.files@)
            &&& field_array(fs@, "file_updates"@) matches Some(ua) && all_file_update_matches(
                ua,
                m.file_updates@,
            )
        },
        _ => false,
    }
}

/// Decode a mod-files body.
pub fn decode_mod_files(v: &JsonValue) -> (r: Option<ModFiles>)
    ensures
        r is Some <==> mod_files_shape(*v),
        r matches Some(m) ==> mod_files_matches(*v, m),
{
    let fs = match v {
        JsonValue::Object(fs) => fs,
        _ => {
            return None;
        },
    };
    let files_arr = match get_array(fs, "files") {
        Some(a) => a,
        None => {
            return None;
        },
    };
    let files = match decode_file_list(files_arr) {
        Some(ms) => ms,
        None => {
            proof {
                assert(*fs == v->Object_0);
                assert(field_array(v->Object_0@, "files"@) == Some(files_arr@));
                assert(!mod_files_shape(*v));
            }
            return None;
        },
    };
    let updates_arr = match get_array(fs, "file_updates") {
        Some(a) => a,
        None => {
            return None;
        },
    };
    let file_updates = match decode_update_list(updates_arr) {
        Some(us) => us,
        None => {
            proof {
                assert(*fs == v->Object_0);
                assert(field_array(v->Object_0@, "file_updates"@) == Some(updates_arr@));
                assert(!mod_files_shape(*v));
            }
            return None;
        },
    };
    Some(ModFiles { files, file_updates })
}

/// A well-formed recently-updated record: the mod id and its two epoch
/// timestamps.
pub open spec fn mod_updated_shape(v: JsonValue) -> bool {
    match v {
        JsonValue::Object(fs) => {
            &&& field_u64(fs@, "mod_id"@) is Some
            &&& field_epoch(fs@, "latest_file_update"@) is Some
            &&& field_epoch(fs@, "latest_mod_activity"@) is Some
        },
        _ => false,
    }
}

/// The decoded record's fields, each read from its wire field.
pub open spec fn mod_updated_matches(v: JsonValue, m: ModUpdated) -> bool {
    match v {
        JsonValue::Object(fs) => {
            &&& field_u64(fs@, "mod_id"@) == Some(m.mod_id@)
            &&& field_epoch(fs@, "latest_file_update"@) == Some(m.latest_file_update)
            &&& field_epoch(fs@, "latest_mod_activity"@) == Some(m.latest_mod_activity)
        },
        _ => false,
    }
}

/// Decode one recently-updated record.
pub fn decode_mod_updated(v: &JsonValue) -> (r: Option<ModUpdated>)
    ensures
        r is Some <==> mod_updated_shape(*v),
        r matches Some(m) ==> mod_updated_matches(*v, m),
{
    let fs = match v {
        JsonValue::Object(fs) => fs,
        _ => {
            return None;
        },
    };
    let mod_id = match get_u64(fs, "mod_id") {
        Some(x) => ModId::from_u64(x),
        None => {
            return None;
        },
    };
    let latest_file_update = match get_epoch(fs, "latest_file_update") {
        Some(x) => x,
        None => {
            return None;
        },
    };
    let latest_mod_activity = match get_epoch(fs, "latest_mod_activity") {
        Some(x) => x,
        None => {
            return None;
        },
    };
    Some(ModUpdated { mod_id, latest_file_update, latest_mod_activity })
}

/// A well-formed recently-updated body: an array of well-formed records.
pub open spec fn mod_updated_list_shape(v: JsonValue) -> bool {
    match v {
        JsonValue::Array(arr) => forall|i: int|
            0 <= i < arr@.len() ==> mod_updated_shape(#[trigger] arr@[i]),
        _ => false,
    }
}

/// The decoded list pairs up with the wire array, record for record.
pub open spec fn mod_updated_list_matches(v: JsonValue, ms: Seq<ModUpdated>) -> bool {
    match v {
        JsonValue::Array(arr) => ms.len() == arr@.len() && forall|i: int|
            0 <= i < arr@.len() ==> mod_updated_matches(#[trigger] arr@[i], ms[i]),
        _ => false,
    }
}

/// Decode a recently-updated body.
pub fn decode_mod_updated_list(v: &JsonValue) -> (r: Option<Vec<ModUpdated>>)
    ensures
        r is Some <==> mod_updated_list_shape(*v),
        r matches Some(ms) ==> mod_updated_list_matches(*v, ms@),
{
    let arr = match v {
        JsonValue::Array(arr) => arr,
        _ => {
            return None;
        },
    };
    let n = arr.len();
    let mut ms: Vec<ModUpdated> = Vec::new();
    let mut i: usize = 0;
    while i < n
        invariant
            *v == JsonValue::Array(*arr),
            n == arr@.len(),
            0 <= i <= n,
            ms@.len() == i,
            forall|j: int| 0 <= j < i ==> mod_updated_shape(#[trigger] arr@[j]),
            forall|j: int| 0 <= j < i ==> mod_updated_matches(#[trigger] arr@[j], ms@[j]),
        decreases n - i,
    {
        match decode_mod_updated(&arr[i]) {
            Some(m) => ms.push(m),
            None => {
                proof {
                    let a = v->Array_0;
                    assert(a == *arr);
                    assert(!mod_updated_shape(a@[i as int]));
                    assert(!mod_updated_list_shape(*v));
                }
                return None;
            },
        }
        i += 1;
    }
    Some(ms)
}


} // verus!
