//! Instants and what the detector reads off them: the hour of the day and
//! the calendar day.

use vstd::prelude::*;
use chrono::Datelike;

verus! {

/// Nanoseconds in one second.
pub const NANOS_PER_SECOND: i64 = 1_000_000_000;

/// Nanoseconds in one minute.
pub const NANOS_PER_MINUTE: i64 = 60_000_000_000;

/// Nanoseconds in one hour.
pub const NANOS_PER_HOUR: i64 = 3_600_000_000_000;

/// Nanoseconds in one day.
pub const NANOS_PER_DAY: i64 = 86_400_000_000_000;

/// A calendar day in UTC: the year and the day of that year, counted from 1.
#[derive(Clone, Copy, Debug, PartialEq, Eq, Structural)]
pub struct DayKey {
    pub year: i32,
    pub ordinal: u32,
}

/// The hour of the day, 0 to 23, of an instant given in nanoseconds since
/// the Unix epoch. Division rounds towards minus infinity, so instants
/// before the epoch fall into the right hour too.
pub open spec fn hour_at(timestamp: int) -> int {
    (timestamp / (NANOS_PER_HOUR as int)) % 24
}

/// The hour of the day of `timestamp`.
pub fn hour_of_day(timestamp: i64) -> (hour: u8)
    ensures
        hour as int == hour_at(timestamp as int),
        hour < 24,
{
    let hours: i64 = match timestamp.checked_div_euclid(NANOS_PER_HOUR) {
        Some(q) => q,
        None => 0,
    };
    let hour: i64 = match hours.checked_rem_euclid(24) {
        Some(r) => r,
        None => 0,
    };
    hour as u8
}

/// The minute of the hour, 0 to 59, of an instant.
pub open spec fn minute_at(timestamp: int) -> int {
    (timestamp / (NANOS_PER_MINUTE as int)) % 60
}

/// The day of the week of an instant in UTC, counted from Monday as 0 to
/// Sunday as 6. The first day of the Unix epoch was a Thursday.
pub open spec fn weekday_at(timestamp: int) -> int {
    (timestamp / (NANOS_PER_DAY as int) + 3) % 7
}

/// The minute of the hour of `timestamp`.
pub fn minute_of_hour(timestamp: i64) -> (minute: u8)
    ensures
        minute as int == minute_at(timestamp as int),
        minute < 60,
{
    let minutes: i64 = match timestamp.checked_div_euclid(NANOS_PER_MINUTE) {
        Some(q) => q,
        None => 0,
    };
    let minute: i64 = match minutes.checked_rem_euclid(60) {
        Some(r) => r,
        None => 0,
    };
    minute as u8
}

/// The day of the week of `timestamp`, counted from Monday as 0.
pub fn weekday_from_monday(timestamp: i64) -> (weekday: u8)
    ensures
        weekday as int == weekday_at(timestamp as int),
        weekday < 7,
{
    let days: i64 = match timestamp.checked_div_euclid(NANOS_PER_DAY) {
        Some(q) => q,
        None => 0,
    };
    let weekday: i64 = match (days + 3).checked_rem_euclid(7) {
        Some(r) => r,
        None => 0,
    };
    weekday as u8
}

/// The whole minutes in a span of nanoseconds, rounded towards zero.
pub open spec fn whole_minutes(span: int) -> int {
    if span >= 0 {
        span / (NANOS_PER_MINUTE as int)
    } else {
        -((-span) / (NANOS_PER_MINUTE as int))
    }
}

/// The whole minutes from `earlier` to `later`, rounded towards zero;
/// negative if `later` is the earlier of the two.
pub fn minutes_between(later: i64, earlier: i64) -> (minutes: i64)
    ensures
        minutes == whole_minutes(later - earlier),
{
    let span: i128 = later as i128 - earlier as i128;
    if span >= 0 {
        (span / 60_000_000_000) as i64
    } else {
        -(((-span) / 60_000_000_000) as i64)
    }
}

/// The calendar year of an instant in UTC, as `chrono` gives it.
pub uninterp spec fn utc_year(timestamp: i64) -> i32;

/// The day of the year of an instant in UTC, as `chrono` gives it.
pub uninterp spec fn utc_ordinal(timestamp: i64) -> u32;

/// The calendar day on which an instant falls.
pub open spec fn day_key_at(timestamp: i64) -> DayKey {
    DayKey { year: utc_year(timestamp), ordinal: utc_ordinal(timestamp) }
}

/// Calls `Datelike::year` on the `DateTime<Utc>` that
/// `DateTime::from_timestamp_nanos` makes of `timestamp`. Every `i64` is in
/// range for that constructor; the contract only gives the year a name.
#[verifier::external_body]
fn civil_year(timestamp: i64) -> (year: i32)
    ensures
        year == utc_year(timestamp),
{
    chrono::DateTime::from_timestamp_nanos(timestamp).year()
}

/// Calls `Datelike::ordinal` on the `DateTime<Utc>` that
/// `DateTime::from_timestamp_nanos` makes of `timestamp`; the contract
/// only gives the day of the year a name.
#[verifier::external_body]
fn civil_ordinal(timestamp: i64) -> (ordinal: u32)
    ensures
        ordinal == utc_ordinal(timestamp),
{
    chrono::DateTime::from_timestamp_nanos(timestamp).ordinal()
}

/// The calendar day on which `timestamp` falls.
pub fn day_key(timestamp: i64) -> (key: DayKey)
    ensures
        key == day_key_at(timestamp),
{
    DayKey { year: civil_year(timestamp), ordinal: civil_ordinal(timestamp) }
}

} // verus!
