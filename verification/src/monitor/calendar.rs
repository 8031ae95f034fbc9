use vstd::prelude::*;

use chrono::Datelike;

verus! {

/// Milliseconds in one calendar day (UTC, no leap seconds).
pub const MILLIS_PER_DAY: u64 = 86_400_000;

/// Nanoseconds in one second.
pub const NANOS_PER_SECOND: u64 = 1_000_000_000;

/// Seconds in one calendar day.
pub const SECONDS_PER_DAY: u64 = 86_400;

/// Nanoseconds in one calendar day.
pub const NANOS_PER_DAY: u64 = 86_400_000_000_000;

/// Largest day number (days since the Unix epoch) that the civil-date
/// conversion accepts; chrono represents dates well beyond any day number a
/// 64-bit nanosecond timestamp can reach.
pub const MAX_CIVIL_DAY: u64 = 10_000_000;

/// The proleptic Gregorian calendar date, in UTC, of the given day number
/// (days since the Unix epoch): a pure function of the day number, computed
/// by the calendar library.
pub uninterp spec fn civil_of_day(day: int) -> (int, u32, u32);

/// Relies on chrono: `DateTime::from_timestamp` maps a Unix timestamp to a
/// UTC instant, whose calendar date `Datelike::{year, month, day}` read
/// back. The date depends on the day number alone; chrono documents months
/// in 1..=12, days in 1..=31, and timestamp 0 as 1970-01-01.
#[verifier::external_body]
pub fn civil_date_of_day(day: u64) -> (r: (i32, u32, u32))
    requires
        day <= MAX_CIVIL_DAY,
    ensures
        (r.0 as int, r.1, r.2) == civil_of_day(day as int),
        1970 <= r.0,
        1 <= r.1 <= 12,
        1 <= r.2 <= 31,
{
    let date_time = chrono::DateTime::<chrono::Utc>::from_timestamp(
        (day * 86_400) as i64,
        0,
    ).unwrap();
    (date_time.year(), date_time.month(), date_time.day())
}

} // verus!
