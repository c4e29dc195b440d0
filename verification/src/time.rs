//! Conversion of a timestamp in microseconds since the Unix epoch into a
//! calendar date and time of day in UTC.

use vstd::prelude::*;
use chrono::Datelike;
use chrono::Timelike;

verus! {

/// Microseconds in one second.
pub const MICROS_PER_SECOND: i64 = 1_000_000;

/// Nanoseconds in one microsecond.
pub const NANOS_PER_MICRO: u32 = 1_000;

/// A date of the proleptic Gregorian calendar and a time of day, in UTC.
#[derive(Clone, Copy, Debug, PartialEq, Eq, Structural)]
pub struct CalendarTime {
    pub year: i32,
    pub month: u32,
    pub day: u32,
    pub hour: u32,
    pub minute: u32,
    pub second: u32,
    pub nanosecond: u32,
}

/// The whole seconds before or after the epoch in a count of microseconds,
/// rounded towards the past.
pub open spec fn whole_seconds(micros: int) -> int {
    micros / 1_000_000
}

/// The nanoseconds by which a count of microseconds lies past its whole
/// seconds: always in `0 .. 1_000_000_000`.
pub open spec fn subsec_nanos(micros: int) -> int {
    (micros % 1_000_000) * 1_000
}

/// The calendar time in UTC that lies `secs` seconds and `nsecs` nanoseconds
/// after the epoch, as `chrono` computes it; `None` where `chrono` has no
/// calendar time for that instant.
pub uninterp spec fn utc_calendar_time(secs: int, nsecs: int) -> Option<CalendarTime>;

/// Calls `chrono::DateTime::from_timestamp` and, where that gives a moment,
/// reads year, month, day, hour, minute, second and nanosecond off it with
/// the getters of `chrono::Datelike` and `chrono::Timelike`. Nothing is
/// proved of this function. Its contract claims only that what comes back
/// depends on `secs` and `nsecs` alone, by giving it the name
/// `utc_calendar_time`.
#[verifier::external_body]
fn utc_from_timestamp(secs: i64, nsecs: u32) -> (time: Option<CalendarTime>)
    ensures
        time == utc_calendar_time(secs as int, nsecs as int),
{
    match chrono::DateTime::from_timestamp(secs, nsecs) {
        Some(t) => Some(
            CalendarTime {
                year: t.year(),
                month: t.month(),
                day: t.day(),
                hour: t.hour(),
                minute: t.minute(),
                second: t.second(),
                nanosecond: t.nanosecond(),
            },
        ),
        None => None,
    }
}

/// Splits a count of microseconds since the epoch into whole seconds and the
/// nanoseconds past them. A time before the epoch gives a negative count of
/// seconds and, as any other, a non-negative count of nanoseconds.
pub fn split_micros(micros: i64) -> (parts: (i64, u32))
    ensures
        parts.0 == whole_seconds(micros as int),
        parts.1 == subsec_nanos(micros as int),
        parts.0 * 1_000_000_000 + parts.1 == micros * 1_000,
        parts.1 < 1_000_000_000,
{
    let quotient: i64 = micros / MICROS_PER_SECOND;
    let remainder: i64 = micros % MICROS_PER_SECOND;
    if remainder < 0 {
        let past: u32 = (remainder + MICROS_PER_SECOND) as u32;
        (quotient - 1, past * NANOS_PER_MICRO)
    } else {
        let past: u32 = remainder as u32;
        (quotient, past * NANOS_PER_MICRO)
    }
}

/// The calendar time in UTC of a timestamp in microseconds since the epoch,
/// or `None` where the instant lies outside the years that `chrono` covers.
pub fn get_timestamp(micros: i64) -> (time: Option<CalendarTime>)
    ensures
        time == utc_calendar_time(whole_seconds(micros as int), subsec_nanos(micros as int)),
{
    let (secs, nsecs) = split_micros(micros);
    utc_from_timestamp(secs, nsecs)
}

} // verus!
