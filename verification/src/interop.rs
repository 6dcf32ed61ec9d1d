//! Trusted bridges to std text functions and to the `uuid`, `chrono` and
//! `rand` crates. Each item below makes exactly one outside call; its contract
//! is what Verus believes of that call.

use rand::Rng;
use vstd::prelude::*;

verus! {

/// What `str::to_uppercase` returns for a string: the Unicode uppercase
/// mapping of every char (one char may map to several).
pub uninterp spec fn spec_to_uppercase(s: Seq<char>) -> Seq<char>;

/// What `str::to_lowercase` returns for a string: the Unicode lowercase
/// mapping of every char.
pub uninterp spec fn spec_to_lowercase(s: Seq<char>) -> Seq<char>;

/// Every char is ASCII.
pub open spec fn is_ascii(s: Seq<char>) -> bool {
    forall|i: int| 0 <= i < s.len() ==> (#[trigger] s[i] as u32) < 128
}

/// `c` with `a`..`z` mapped to `A`..`Z`.
pub open spec fn ascii_upper_char(c: char) -> char {
    if 'a' <= c <= 'z' {
        ((c as u32) - 32) as char
    } else {
        c
    }
}

/// `c` with `A`..`Z` mapped to `a`..`z`.
pub open spec fn ascii_lower_char(c: char) -> char {
    if 'A' <= c <= 'Z' {
        ((c as u32) + 32) as char
    } else {
        c
    }
}

pub open spec fn ascii_upper(s: Seq<char>) -> Seq<char> {
    s.map_values(|c: char| ascii_upper_char(c))
}

pub open spec fn ascii_lower(s: Seq<char>) -> Seq<char> {
    s.map_values(|c: char| ascii_lower_char(c))
}

/// The uppercase form of `s`: spelled out for ASCII text, named otherwise.
pub open spec fn uppercased(s: Seq<char>) -> Seq<char> {
    if is_ascii(s) {
        ascii_upper(s)
    } else {
        spec_to_uppercase(s)
    }
}

/// The lowercase form of `s`: spelled out for ASCII text, named otherwise.
pub open spec fn lowercased(s: Seq<char>) -> Seq<char> {
    if is_ascii(s) {
        ascii_lower(s)
    } else {
        spec_to_lowercase(s)
    }
}

/// Calls `str::to_uppercase`. The result is named; on ASCII text it maps
/// `a`..`z` to `A`..`Z` and keeps every other char, as the Unicode mapping
/// does for ASCII (`str::to_ascii_uppercase` documents the same mapping).
#[verifier::external_body]
pub(crate) fn to_uppercase(s: &str) -> (r: String)
    ensures
        r@ == spec_to_uppercase(s@),
        is_ascii(s@) ==> r@ == ascii_upper(s@),
{
    s.to_uppercase()
}

/// Calls `str::to_lowercase`. The result is named; on ASCII text it maps
/// `A`..`Z` to `a`..`z` and keeps every other char.
#[verifier::external_body]
pub(crate) fn to_lowercase(s: &str) -> (r: String)
    ensures
        r@ == spec_to_lowercase(s@),
        is_ascii(s@) ==> r@ == ascii_lower(s@),
{
    s.to_lowercase()
}

/// Lowercase hexadecimal digit of a nibble.
pub open spec fn hex_digit(n: u128) -> char {
    if n < 10 {
        (('0' as u128) + n) as char
    } else {
        (('a' as u128) + n - 10) as char
    }
}

/// The nibble of `v` shown at position `i` (0..36) of the hyphenated form.
pub open spec fn uuid_nibble_at(v: u128, i: int) -> u128 {
    let k = if i < 8 {
        i
    } else if i < 13 {
        i - 1
    } else if i < 18 {
        i - 2
    } else if i < 23 {
        i - 3
    } else {
        i - 4
    };
    (v >> ((124 - 4 * k) as u128)) & 0xf
}

/// The hyphenated lowercase text of a UUID: 8-4-4-4-12 hex digits.
pub open spec fn uuid_text(v: u128) -> Seq<char> {
    Seq::new(
        36,
        |i: int|
            if i == 8 || i == 13 || i == 18 || i == 23 {
                '-'
            } else {
                hex_digit(uuid_nibble_at(v, i))
            },
    )
}

/// `uuid::Uuid::from_u128(v).to_string()`: `Display` of `Uuid` writes the
/// hyphenated lowercase form.
#[verifier::external_body]
pub(crate) fn uuid_to_string(v: u128) -> (r: String)
    ensures
        r@ == uuid_text(v),
{
    uuid::Uuid::from_u128(v).to_string()
}

/// What `uuid::Uuid::parse_str` gives for a text: the UUID's value, or the
/// text of the parse error.
pub uninterp spec fn spec_parse_uuid(s: Seq<char>) -> Result<u128, Seq<char>>;

/// Calls `uuid::Uuid::parse_str`; the value (as `u128`) or the error's
/// `Display` text is named, not spelled out.
#[verifier::external_body]
pub(crate) fn parse_uuid(s: &str) -> (r: Result<u128, String>)
    ensures
        match r {
            Ok(v) => spec_parse_uuid(s@) == Ok::<u128, Seq<char>>(v),
            Err(e) => spec_parse_uuid(s@) == Err::<u128, Seq<char>>(e@),
        },
{
    match uuid::Uuid::parse_str(s) {
        Ok(u) => Ok(u.as_u128()),
        Err(e) => Err(e.to_string()),
    }
}

/// `uuid::Uuid::new_v4()`: a random UUID. Only its version (4) and variant
/// (RFC 4122) bits are claimed: `new_v4` masks them in.
#[verifier::external_body]
pub(crate) fn new_uuid_v4() -> (r: u128)
    ensures
        r & 0xF000_C000_0000_0000_0000u128 == 0x4000_8000_0000_0000_0000u128,
{
    uuid::Uuid::new_v4().as_u128()
}

/// Smallest microsecond timestamp that `chrono::DateTime<Utc>` can hold
/// (-262143-01-01T00:00:00Z; `from_timestamp_micros` refuses anything
/// earlier, since it falls in year -262144).
pub const MIN_TIMESTAMP_US: i64 = -8334601228800000000i64;

/// Largest microsecond timestamp that `chrono::DateTime<Utc>` can hold
/// (+262142-12-31T23:59:59.999999Z).
pub const MAX_TIMESTAMP_US: i64 = 8210266876799999999i64;

pub open spec fn valid_timestamp_us(us: int) -> bool {
    MIN_TIMESTAMP_US <= us <= MAX_TIMESTAMP_US
}

/// `chrono::Utc::now().timestamp_micros()`. The value depends on the clock;
/// only that every `DateTime<Utc>` lies in chrono's range is claimed.
#[verifier::external_body]
pub(crate) fn now_micros() -> (r: i64)
    ensures
        valid_timestamp_us(r as int),
{
    chrono::Utc::now().timestamp_micros()
}

/// What `DateTime::<Utc>::to_rfc3339` writes for the instant `ms`
/// microseconds after the Unix epoch.
pub uninterp spec fn spec_rfc3339_micros(us: i64) -> Seq<char>;

/// `chrono::DateTime::from_timestamp_micros(us)` followed by `to_rfc3339`.
/// `from_timestamp_micros` returns `None` exactly outside chrono's range,
/// which `requires` leaves out.
#[verifier::external_body]
pub(crate) fn rfc3339_from_micros(us: i64) -> (r: String)
    requires
        valid_timestamp_us(us as int),
    ensures
        r@ == spec_rfc3339_micros(us),
{
    chrono::DateTime::from_timestamp_micros(us).unwrap().to_rfc3339()
}

/// `rand::rng().random_range(0..n)`: a random index below `n`. The range
/// must not be empty, or `random_range` panics.
#[verifier::external_body]
pub(crate) fn random_index(n: usize) -> (r: usize)
    requires
        n > 0,
    ensures
        r < n,
{
    rand::rng().random_range(0..n)
}

} // verus!

verus! {

/// `String::push`: appends one char.
#[verifier::external_body]
pub(crate) fn push_char(s: &mut String, c: char)
    ensures
        final(s)@ == old(s)@.push(c),
{
    s.push(c);
}

} // verus!
