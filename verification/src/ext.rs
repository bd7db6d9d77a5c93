//! Trusted bindings to the `uuid` and `chrono` crates.
//!
//! Identifiers are carried through the library as their 128-bit value and
//! timestamps as seconds-and-nanoseconds pairs; these functions alone
//! translate between those plain values and the canonical text forms that
//! the storage rows hold.  Each contract states only what the bound crate's
//! source and documentation show.

use vstd::prelude::*;
use crate::models::{TS_MIN_SECS, TS_MAX_SECS};

verus! {

/// The canonical hyphenated lower-case rendering of a 128-bit identifier.
pub uninterp spec fn uuid_text(n: u128) -> Seq<char>;

/// The value read from a string of hexadecimal digits with optional
/// hyphens, or `None` where the string has no such form.
pub uninterp spec fn uuid_parse_of(s: Seq<char>) -> Option<u128>;

/// The RFC 3339 rendering (UTC offset written `+00:00`) of an instant.
pub uninterp spec fn rfc3339_text(secs: i64, nanos: u32) -> Seq<char>;

/// The instant read from an RFC 3339 string as UTC seconds and subsecond
/// nanoseconds, or `None` where the string is not valid RFC 3339.
pub uninterp spec fn rfc3339_parse_of(s: Seq<char>) -> Option<(i64, u32)>;

/// Relies on `uuid::Uuid::from_u128` and the `Hyphenated` rendering: the
/// text is the canonical 36-character lower-case hyphenated form and is a
/// function of the value alone.  `Uuid::parse_str` accepts that form and
/// `as_u128` returns the value the identifier was built from, so parsing
/// the rendering yields the argument again.
#[verifier::external_body]
pub(crate) fn uuid_to_string(n: u128) -> (r: String)
    ensures
        r@ == uuid_text(n),
        r@.len() == 36,
        uuid_parse_of(r@) == Some(n),
{
    uuid::Uuid::from_u128(n).hyphenated().to_string()
}

/// Relies on `uuid::Uuid::parse_str` and `as_u128`: the outcome depends on
/// the characters of the input alone.
#[verifier::external_body]
pub(crate) fn uuid_parse(s: &str) -> (r: Option<u128>)
    ensures
        r == uuid_parse_of(s@),
{
    match uuid::Uuid::parse_str(s) {
        Ok(u) => Some(u.as_u128()),
        Err(_) => None,
    }
}

/// Relies on `uuid::Uuid::new_v4`: a freshly generated random identifier.
/// Nothing is promised of the value.
#[verifier::external_body]
pub(crate) fn fresh_uuid() -> u128 {
    uuid::Uuid::new_v4().as_u128()
}

/// Relies on `chrono::DateTime::from_timestamp` and `to_rfc3339`:
/// within the admitted range `from_timestamp` always returns a value, the
/// rendering depends on seconds and nanoseconds alone, and
/// `parse_from_rfc3339` reads the rendering back to the same instant
/// (chrono documents the round trip of `from_timestamp` with `timestamp`
/// and `timestamp_subsec_nanos`).
#[verifier::external_body]
pub(crate) fn timestamp_to_rfc3339(secs: i64, nanos: u32) -> (r: String)
    requires
        TS_MIN_SECS <= secs < TS_MAX_SECS,
        nanos < 1_000_000_000,
    ensures
        r@ == rfc3339_text(secs, nanos),
        rfc3339_parse_of(r@) == Some((secs, nanos)),
{
    chrono::DateTime::<chrono::Utc>::from_timestamp(secs, nanos)
        .expect("seconds are within the supported era")
        .to_rfc3339()
}

/// Relies on `chrono::DateTime::parse_from_rfc3339`, `timestamp` and
/// `timestamp_subsec_nanos`: the outcome depends on the characters of the
/// input alone.
#[verifier::external_body]
pub(crate) fn parse_rfc3339(s: &str) -> (r: Option<(i64, u32)>)
    ensures
        r == rfc3339_parse_of(s@),
{
    match chrono::DateTime::parse_from_rfc3339(s) {
        Ok(d) => Some((d.timestamp(), d.timestamp_subsec_nanos())),
        Err(_) => None,
    }
}

/// Relies on `chrono::Utc::now`: on return the seconds are non-negative
/// (the clock is after the epoch) and the fractional part, taken from a
/// `Duration`, is below one billion nanoseconds.
#[verifier::external_body]
pub(crate) fn now_timestamp() -> (r: (i64, u32))
    ensures
        r.0 >= 0,
        r.1 < 1_000_000_000,
{
    let now = chrono::Utc::now();
    (now.timestamp(), now.timestamp_subsec_nanos())
}

} // verus!
