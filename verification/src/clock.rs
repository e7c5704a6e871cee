//! The system clock and the local calendar.

use vstd::prelude::*;

verus! {

/// Reads the clock with `chrono::Utc::now` and gives the whole seconds since
/// the Unix epoch. Nothing is known of the value. Chrono ends the process
/// when the system clock stands before 1970.
#[verifier::external_body]
pub(crate) fn unix_now() -> (seconds: i64) {
    chrono::Utc::now().timestamp()
}

/// The last second of the year 9999, counted from the Unix epoch.
pub const LAST_SECOND_OF_YEAR_9999: i64 = 253_402_300_799;

/// Writes the instant `seconds` after the Unix epoch as an RFC 3339 date and
/// time in the machine's time zone, with `chrono::TimeZone::timestamp_opt` on
/// `chrono::Local` and `DateTime::to_rfc3339`.
///
/// Trusted: chrono gives no date only for seconds outside the range of its
/// calendar, which reaches far beyond the years 1970 to 9999; inside those
/// years a text is written. The text depends on the time zone: nothing is
/// stated of it.
#[verifier::external_body]
pub(crate) fn local_rfc3339(seconds: i64) -> (text: Option<String>)
    ensures
        0 <= seconds <= LAST_SECOND_OF_YEAR_9999 ==> text is Some,
{
    match chrono::TimeZone::timestamp_opt(&chrono::Local, seconds, 0).single() {
        Some(instant) => Some(instant.to_rfc3339()),
        None => None,
    }
}

} // verus!
