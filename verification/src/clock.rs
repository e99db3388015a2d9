//! The two readings of the machine's clock that a run takes.

use vstd::prelude::*;
use chrono::Datelike;

verus! {

/// The calendar date of this moment in the machine's time zone, as year, month
/// and day: `std::time::SystemTime::now`, turned into a `chrono::DateTime` of
/// `chrono::Local` by chrono's `From<SystemTime>`, and read with the accessors
/// of `chrono::Datelike`.
///
/// The date depends on the clock and on the time zone, so nothing is said of
/// which date comes back, only that the month lies in 1..=12 and the day in
/// 1..=31, as `Datelike::month` and `Datelike::day` document. The conversion
/// takes a clock that stands before the epoch as it takes any other; it has
/// no date only for a clock beyond the years that chrono can hold.
#[verifier::external_body]
pub(crate) fn local_calendar_date() -> (date: (i32, u32, u32))
    ensures
        1 <= date.1 <= 12,
        1 <= date.2 <= 31,
{
    let now = chrono::DateTime::<chrono::Local>::from(std::time::SystemTime::now());
    (now.year(), now.month(), now.day())
}

/// The seconds between the epoch and this moment: `std::time::SystemTime::now`,
/// turned into a `chrono::DateTime` of `chrono::Utc` by chrono's
/// `From<SystemTime>`, and read with `DateTime::timestamp`.
///
/// The value depends on the clock: nothing is said of it. For a clock that
/// stands before the epoch it is negative. The conversion has no value only
/// for a clock beyond the years that chrono can hold.
#[verifier::external_body]
pub(crate) fn utc_timestamp() -> (seconds: i64) {
    chrono::DateTime::<chrono::Utc>::from(std::time::SystemTime::now()).timestamp()
}

} // verus!
