//! Timestamp handling, delegated to the `chrono` crate.
//!
//! Timestamps live in the library as milliseconds since the Unix epoch.
//! Reading the clock, parsing RFC 3339 text and rendering a timestamp for
//! display are the `chrono` crate's work; parsing and rendering depend on
//! their input alone, so their results are given names here.

use vstd::prelude::*;

verus! {

/// The number of non-leap milliseconds since the Unix epoch denoted by an
/// RFC 3339 timestamp, or `None` where the text is not one.
pub uninterp spec fn rfc3339_epoch_ms_of(s: Seq<char>) -> Option<int>;

/// The display text of an epoch-millisecond timestamp as a UTC civil date
/// and time under the day-month-year hour:minute format, or `None` where
/// the milliseconds fall outside the representable range of dates. The
/// instant is rendered in UTC, not in the machine's time zone, so the text
/// depends on the millisecond count alone.
pub uninterp spec fn utc_expiry_text_of(ms: int) -> Option<Seq<char>>;

/// Relies on `chrono::DateTime::parse_from_rfc3339` and
/// `timestamp_millis`: the parsed instant depends on the text alone.
#[verifier::external_body]
pub(crate) fn parse_rfc3339_ms(s: &str) -> (r: Option<i64>)
    ensures
        r is Some <==> rfc3339_epoch_ms_of(s@) is Some,
        r matches Some(ms) ==> ms as int == rfc3339_epoch_ms_of(s@).unwrap(),
{
    match chrono::DateTime::parse_from_rfc3339(s) {
        Ok(d) => Some(d.to_utc().timestamp_millis()),
        Err(_) => None,
    }
}

/// Relies on `chrono::DateTime::from_timestamp_millis` and `format`: the
/// rendered text depends on the millisecond count alone (the instant is
/// kept in UTC, and the format names months in English, independently of
/// any locale).
#[verifier::external_body]
pub(crate) fn format_expiry_ms(ms: i64) -> (r: Option<String>)
    ensures
        r is Some <==> utc_expiry_text_of(ms as int) is Some,
        r matches Some(t) ==> t@ == utc_expiry_text_of(ms as int).unwrap(),
{
    match chrono::DateTime::from_timestamp_millis(ms) {
        Some(d) => Some(d.format("%d %b %Y %H:%M").to_string()),
        None => None,
    }
}

/// Relies on `std::time::SystemTime::now` and chrono's conversion of a
/// `SystemTime`: the milliseconds since the Unix epoch at the time of the
/// call, of which nothing can be promised. A clock standing before the
/// epoch yields a negative count rather than a panic.
#[verifier::external_body]
pub(crate) fn now_epoch_ms() -> i64 {
    chrono::DateTime::<chrono::Utc>::from(std::time::SystemTime::now()).timestamp_millis()
}

} // verus!
