//! Readings of the operating-system wall clock, and parsing of RFC 3339
//! period bounds, both through the `chrono` crate.
//!
//! A wall-clock sample depends on the environment, so nothing relates two
//! samples; every function whose result depends on "now" therefore also
//! exists in a variant that takes the sampled time as an argument and is
//! verified for every value of it.

use vstd::prelude::*;

verus! {

/// The Unix-second reading of an RFC 3339 date-and-time string, or `None`
/// where the text is not a valid RFC 3339 date-and-time.
pub uninterp spec fn rfc3339_secs(s: Seq<char>) -> Option<int>;

/// Relies on chrono::DateTime::parse_from_rfc3339 and
/// chrono::DateTime::timestamp: parsing accepts exactly the valid RFC 3339
/// date-and-time strings, and both steps are pure functions of the text.
#[verifier::external_body]
pub(crate) fn parse_rfc3339_secs(s: &str) -> (r: Option<i64>)
    ensures
        match r {
            Some(t) => rfc3339_secs(s@) == Some(t as int),
            None => rfc3339_secs(s@) is None,
        },
{
    match chrono::DateTime::parse_from_rfc3339(s) {
        Ok(dt) => Some(dt.timestamp()),
        Err(_) => None,
    }
}

/// Relies on chrono::Utc::now and chrono::DateTime::timestamp: the current
/// wall-clock time in whole seconds since the Unix epoch. `Utc::now` returns
/// only when the system clock is at or after the epoch, so the reading is
/// non-negative; nothing else holds of it.
#[verifier::external_body]
pub(crate) fn wall_clock_secs() -> (r: i64)
    ensures
        0 <= r,
{
    chrono::Utc::now().timestamp()
}

} // verus!
