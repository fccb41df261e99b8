//! Field codecs for the deliberately ambiguous wire values: the
//! integer-or-`false` parent reference, the open endorsement-status union,
//! the two timestamp encodings, the file-category tags, and the decimal
//! counters of the rate-limit metadata.
//!
//! Every codec is deterministic. Where the upstream union is closed (the
//! parent reference), a foreign value is a decode failure; where it is open
//! (the endorsement status), every other well-formed value falls back to
//! the catch-all variant.

use vstd::prelude::*;
use vstd::string::StringSliceAdditionalSpecFns;

use crate::json::JsonValue;
use crate::request::{Category, CategoryName, EndorseStatus, HasEndorsed, RateLimiting};

verus! {

/// The parent-reference decoding: a non-negative integer is a parent id,
/// the boolean `false` is "no parent", and everything else (including
/// `true` and negative integers) is a decode failure.
pub open spec fn spec_category_of(v: JsonValue) -> Option<Category> {
    match v {
        JsonValue::UInt(n) => Some(Category::Parent(n)),
        JsonValue::Bool(b) => if !b {
            Some(Category::NoParent)
        } else {
            None
        },
        _ => None,
    }
}

/// Decode a parent reference from its ambiguous wire value.
pub fn decode_category(v: &JsonValue) -> (r: Option<Category>)
    ensures
        r == spec_category_of(*v),
{
    match v {
        JsonValue::UInt(n) => Some(Category::Parent(*n)),
        JsonValue::Bool(b) => if !*b {
            Some(Category::NoParent)
        } else {
            None
        },
        _ => None,
    }
}

/// The parent-reference encoding: the id itself, or the boolean `false`.
pub open spec fn spec_category_encoding(c: Category) -> JsonValue {
    match c {
        Category::Parent(n) => JsonValue::UInt(n),
        Category::NoParent => JsonValue::Bool(false),
    }
}

/// Encode a parent reference back to its wire value.
pub fn encode_category(c: &Category) -> (r: JsonValue)
    ensures
        r == spec_category_encoding(*c),
{
    match c {
        Category::Parent(n) => JsonValue::UInt(*n),
        Category::NoParent => JsonValue::Bool(false),
    }
}

/// Law: encoding a decoded parent reference reproduces the wire value it
/// was decoded from (the integer for "has parent", `false` for "no
/// parent").
pub proof fn lemma_category_round_trip(v: JsonValue, c: Category)
    requires
        spec_category_of(v) == Some(c),
    ensures
        spec_category_encoding(c) == v,
{
}

/// Law: every parent reference the encoder emits decodes back to itself.
pub proof fn lemma_category_encode_decode(c: Category)
    ensures
        spec_category_of(spec_category_encoding(c)) == Some(c),
{
}

/// The endorsement-status decoding: the exact tag "Endorsed", or the
/// catch-all for any other wire value. Total: this codec never fails.
pub open spec fn spec_endorse_status_of(v: JsonValue) -> EndorseStatus {
    if v matches JsonValue::Str(s) && s@ == "Endorsed"@ {
        EndorseStatus::Endorsed
    } else {
        EndorseStatus::NotEndorsed
    }
}

/// Decode an endorsement status from its open wire union.
pub fn decode_endorse_status(v: &JsonValue) -> (r: EndorseStatus)
    ensures
        r == spec_endorse_status_of(*v),
{
    let tag = String::from_str("Endorsed");
    match v {
        JsonValue::Str(s) => {
            if *s == tag {
                EndorseStatus::Endorsed
            } else {
                EndorseStatus::NotEndorsed
            }
        },
        _ => EndorseStatus::NotEndorsed,
    }
}

/// Law: every wire value other than the exact tag "Endorsed" decodes to
/// `NotEndorsed`; the codec never errors.
pub proof fn lemma_endorse_status_catch_all(v: JsonValue)
    requires
        !(v matches JsonValue::Str(s) && s@ == "Endorsed"@),
    ensures
        spec_endorse_status_of(v) == EndorseStatus::NotEndorsed,
{
}

/// The file-category decoding: one of the six fixed upper-case tags.
pub open spec fn spec_category_name_of(s: Seq<char>) -> Option<CategoryName> {
    if s == "MAIN"@ {
        Some(CategoryName::Main)
    } else if s == "UPDATE"@ {
        Some(CategoryName::Update)
    } else if s == "OPTIONAL"@ {
        Some(CategoryName::Optional)
    } else if s == "OLD_VERSION"@ {
        Some(CategoryName::OldVersion)
    } else if s == "MISCELLANEOUS"@ {
        Some(CategoryName::Miscellaneous)
    } else if s == "ARCHIVED"@ {
        Some(CategoryName::Archived)
    } else {
        None
    }
}

/// Decode a file category from its wire tag; any other value fails.
pub fn decode_category_name(v: &JsonValue) -> (r: Option<CategoryName>)
    ensures
        r == (match *v {
            JsonValue::Str(s) => spec_category_name_of(s@),
            _ => None,
        }),
{
    match v {
        JsonValue::Str(s) => {
            if *s == String::from_str("MAIN") {
                Some(CategoryName::Main)
            } else if *s == String::from_str("UPDATE") {
                Some(CategoryName::Update)
            } else if *s == String::from_str("OPTIONAL") {
                Some(CategoryName::Optional)
            } else if *s == String::from_str("OLD_VERSION") {
                Some(CategoryName::OldVersion)
            } else if *s == String::from_str("MISCELLANEOUS") {
                Some(CategoryName::Miscellaneous)
            } else if *s == String::from_str("ARCHIVED") {
                Some(CategoryName::Archived)
            } else {
                None
            }
        },
        _ => None,
    }
}

/// The endorsement-state decoding inside a mod record: one of the two
/// fixed tags.
pub open spec fn spec_has_endorsed_of(s: Seq<char>) -> Option<HasEndorsed> {
    if s == "Endorsed"@ {
        Some(HasEndorsed::Endorsed)
    } else if s == "Undecided"@ {
        Some(HasEndorsed::Undecided)
    } else {
        None
    }
}

/// Decode the caller's endorsement state; any other value fails.
pub fn decode_has_endorsed(v: &JsonValue) -> (r: Option<HasEndorsed>)
    ensures
        r == (match *v {
            JsonValue::Str(s) => spec_has_endorsed_of(s@),
            _ => None,
        }),
{
    match v {
        JsonValue::Str(s) => {
            if *s == String::from_str("Endorsed") {
                Some(HasEndorsed::Endorsed)
            } else if *s == String::from_str("Undecided") {
                Some(HasEndorsed::Undecided)
            } else {
                None
            }
        },
        _ => None,
    }
}

/// The epoch-integer timestamp decoding: an integer that fits an `i64`,
/// taken as Unix seconds.
pub open spec fn spec_epoch_of(v: JsonValue) -> Option<i64> {
    match v {
        JsonValue::UInt(n) => if n <= i64::MAX as u64 {
            Some(n as i64)
        } else {
            None
        },
        JsonValue::Int(i) => Some(i),
        _ => None,
    }
}

/// Decode an epoch-encoded timestamp field.
pub fn decode_epoch(v: &JsonValue) -> (r: Option<i64>)
    ensures
        r == spec_epoch_of(*v),
{
    match v {
        JsonValue::UInt(n) => if *n <= i64::MAX as u64 {
            Some(*n as i64)
        } else {
            None
        },
        JsonValue::Int(i) => Some(*i),
        _ => None,
    }
}

/// What the `time` crate parses an ISO-8601 text to, as Unix seconds;
/// `None` where the text is not a valid ISO-8601 offset date-time.
pub uninterp spec fn iso_instant_of(s: Seq<char>) -> Option<i64>;

/// Relies on `time::OffsetDateTime::parse` with the well-known ISO-8601
/// format: the result is a function of the text alone, named by
/// [`iso_instant_of`], and is returned as Unix seconds.
#[verifier::external_body]
pub(crate) fn parse_iso8601(s: &str) -> (r: Option<i64>)
    ensures
        r == iso_instant_of(s@),
{
    match time::OffsetDateTime::parse(
        s,
        &time::format_description::well_known::Iso8601::DEFAULT,
    ) {
        Ok(d) => Some(d.unix_timestamp()),
        Err(_) => None,
    }
}

/// The ISO-8601 timestamp decoding: a string field parsed by the `time`
/// crate into Unix seconds.
pub open spec fn spec_iso_of(v: JsonValue) -> Option<i64> {
    match v {
        JsonValue::Str(s) => iso_instant_of(s@),
        _ => None,
    }
}

/// Decode an ISO-8601-encoded timestamp field.
pub fn decode_iso_instant(v: &JsonValue) -> (r: Option<i64>)
    ensures
        r == spec_iso_of(*v),
{
    match v {
        JsonValue::Str(s) => parse_iso8601(s.as_str()),
        _ => None,
    }
}

/// The optional epoch timestamp decoding: `null` is "no instant", an
/// integer is the instant, anything else fails.
pub open spec fn spec_opt_epoch_of(v: JsonValue) -> Option<Option<i64>> {
    match v {
        JsonValue::Null => Some(None),
        JsonValue::UInt(n) => if n <= i64::MAX as u64 {
            Some(Some(n as i64))
        } else {
            None
        },
        JsonValue::Int(i) => Some(Some(i)),
        _ => None,
    }
}

/// Decode an optional epoch-encoded timestamp field.
pub fn deserialize(v: &JsonValue) -> (r: Option<Option<i64>>)
    ensures
        r == spec_opt_epoch_of(*v),
{
    match v {
        JsonValue::Null => Some(None),
        JsonValue::UInt(n) => if *n <= i64::MAX as u64 {
            Some(Some(*n as i64))
        } else {
            None
        },
        JsonValue::Int(i) => Some(Some(*i)),
        _ => None,
    }
}

/// Encode an optional epoch timestamp: the integer, or `null`.
pub fn serialize(v: &Option<i64>) -> (r: JsonValue)
    ensures
        r == (match *v {
            Some(t) => if t >= 0 {
                JsonValue::UInt(t as u64)
            } else {
                JsonValue::Int(t)
            },
            None => JsonValue::Null,
        }),
{
    match v {
        Some(t) => if *t >= 0 {
            JsonValue::UInt(*t as u64)
        } else {
            JsonValue::Int(*t)
        },
        None => JsonValue::Null,
    }
}

/// All bytes are ASCII decimal digits.
pub open spec fn spec_all_digits(bytes: Seq<u8>) -> bool {
    forall|i: int| 0 <= i < bytes.len() ==> 48 <= #[trigger] bytes[i] <= 57
}

/// The value of a digit string read left to right.
pub open spec fn spec_dec_val(bytes: Seq<u8>) -> int
    decreases bytes.len(),
{
    if bytes.len() == 0 {
        0
    } else {
        spec_dec_val(bytes.drop_last()) * 10 + (bytes.last() - 48)
    }
}

/// The decimal reading of a counter header: all digits, non-empty, and
/// within `u16` range; anything else fails.
pub open spec fn spec_dec_u16(bytes: Seq<u8>) -> Option<u16> {
    if bytes.len() > 0 && spec_all_digits(bytes) && spec_dec_val(bytes) <= u16::MAX {
        Some(spec_dec_val(bytes) as u16)
    } else {
        None
    }
}

proof fn lemma_dec_val_nonneg(bytes: Seq<u8>)
    requires
        spec_all_digits(bytes),
    ensures
        spec_dec_val(bytes) >= 0,
    decreases bytes.len(),
{
    if bytes.len() > 0 {
        assert(spec_all_digits(bytes.drop_last()));
        lemma_dec_val_nonneg(bytes.drop_last());
    }
}

proof fn lemma_dec_val_prefix_grows(bytes: Seq<u8>, i: int)
    requires
        0 <= i <= bytes.len(),
        spec_all_digits(bytes),
    ensures
        spec_dec_val(bytes.take(i)) <= spec_dec_val(bytes),
    decreases bytes.len() - i,
{
    if i < bytes.len() {
        assert(bytes.take(i + 1).drop_last() =~= bytes.take(i));
        assert(bytes.take(i + 1).last() == bytes[i]);
        assert(spec_all_digits(bytes.take(i)));
        lemma_dec_val_nonneg(bytes.take(i));
        assert(spec_dec_val(bytes.take(i + 1)) == spec_dec_val(bytes.take(i)) * 10 + (bytes[i]
            - 48));
        lemma_dec_val_prefix_grows(bytes, i + 1);
    } else {
        assert(bytes.take(i) =~= bytes);
    }
}

/// Parse a decimal counter header into a `u16`; fails on anything but a
/// non-empty all-digit string whose value fits.
pub fn parse_u16(s: &str) -> (r: Option<u16>)
    ensures
        r == spec_dec_u16(s.spec_bytes()),
{
    let b = s.as_bytes();
    let n = b.len();
    if n == 0 {
        return None;
    }
    let mut acc: u32 = 0;
    let mut i: usize = 0;
    while i < n
        invariant
            b@ == s.spec_bytes(),
            n == b@.len(),
            0 <= i <= n,
            spec_all_digits(b@.take(i as int)),
            acc == spec_dec_val(b@.take(i as int)),
            acc <= 65535,
        decreases n - i,
    {
        let c = b[i];
        if c < 48 || c > 57 {
            proof {
                assert(!spec_all_digits(b@));
            }
            return None;
        }
        let d: u32 = (c - 48) as u32;
        let next: u32 = acc * 10 + d;
        proof {
            assert(b@.take(i as int + 1).drop_last() =~= b@.take(i as int));
            assert(b@.take(i as int + 1).last() == b@[i as int]);
        }
        if next > 65535 {
            proof {
                if spec_all_digits(b@) {
                    lemma_dec_val_prefix_grows(b@, i as int + 1);
                }
            }
            return None;
        }
        acc = next;
        i += 1;
    }
    proof {
        assert(b@.take(n as int) =~= b@);
    }
    Some(acc as u16)
}

/// Parse the six rate-limit headers of one response into a snapshot: the
/// two counters of each window as decimal strings and the two reset
/// instants as ISO-8601 texts. Fails if and only if one of them does not
/// parse.
pub fn parse_rate_limiting(
    hourly_limit: &str,
    hourly_remaining: &str,
    hourly_reset: &str,
    daily_limit: &str,
    daily_remaining: &str,
    daily_reset: &str,
) -> (r: Option<RateLimiting>)
    ensures
        match r {
            Some(snapshot) => {
                &&& Some(snapshot.hourly_limit) == spec_dec_u16(hourly_limit.spec_bytes())
                &&& Some(snapshot.hourly_remaining) == spec_dec_u16(hourly_remaining.spec_bytes())
                &&& Some(snapshot.hourly_reset) == iso_instant_of(hourly_reset@)
                &&& Some(snapshot.daily_limit) == spec_dec_u16(daily_limit.spec_bytes())
                &&& Some(snapshot.daily_remaining) == spec_dec_u16(daily_remaining.spec_bytes())
                &&& Some(snapshot.daily_reset) == iso_instant_of(daily_reset@)
            },
            None => {
                ||| spec_dec_u16(hourly_limit.spec_bytes()) is None
                ||| spec_dec_u16(hourly_remaining.spec_bytes()) is None
                ||| iso_instant_of(hourly_reset@) is None
                ||| spec_dec_u16(daily_limit.spec_bytes()) is None
                ||| spec_dec_u16(daily_remaining.spec_bytes()) is None
                ||| iso_instant_of(daily_reset@) is None
            },
        },
{
    let hl = parse_u16(hourly_limit);
    let hr = parse_u16(hourly_remaining);
    let hs = parse_iso8601(hourly_reset);
    let dl = parse_u16(daily_limit);
    let dr = parse_u16(daily_remaining);
    let ds = parse_iso8601(daily_reset);
    match (hl, hr, hs, dl, dr, ds) {
        (Some(a), Some(b), Some(c), Some(d), Some(e), Some(f)) => Some(
            RateLimiting::new(a, b, c, d, e, f),
        ),
        _ => None,
    }
}

} // verus!
