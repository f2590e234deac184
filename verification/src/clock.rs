//! The wall clock and the local calendar, read through `chrono`.
//!
//! Nothing here is proved: what the clock or the calendar answers depends on
//! the machine, and the library is verified for every answer.

use chrono::TimeZone;
use vstd::prelude::*;

verus! {

/// The calendar is asked only about instants at least this far inside the
/// range of dates that `chrono` represents, in milliseconds either side of
/// the epoch (about 253 000 years).
pub const CALENDAR_RANGE_MS: i64 = 8_000_000_000_000_000;

/// The current instant in milliseconds since the Unix epoch: the system
/// time of the standard library, taken over by `chrono` (`From<SystemTime>`
/// for `DateTime<Utc>`, which also takes a time before 1970) and counted
/// by `DateTime::timestamp_millis`. The count does not depend on the time
/// zone. Nothing is claimed of the value.
#[verifier::external_body]
pub(crate) fn wall_clock_millis() -> (now: i64) {
    chrono::DateTime::<chrono::Utc>::from(std::time::SystemTime::now()).timestamp_millis()
}

/// The instant at which the local calendar day of `timestamp` began, in
/// milliseconds since the Unix epoch: `TimeZone::timestamp_millis_opt`,
/// `DateTime::date_naive`, `NaiveDate::and_hms_opt(0, 0, 0)` and
/// `TimeZone::from_local_datetime` of `chrono`, in the machine's time zone.
/// Where local midnight occurred twice the earlier instant is taken; `None`
/// where the day has no local midnight. Nothing is claimed of the value.
#[verifier::external_body]
pub(crate) fn local_day_start(timestamp: i64) -> (start: Option<i64>)
    requires
        -CALENDAR_RANGE_MS <= timestamp <= CALENDAR_RANGE_MS,
{
    let at = chrono::Local.timestamp_millis_opt(timestamp).earliest()?;
    let midnight = at.date_naive().and_hms_opt(0, 0, 0)?;
    chrono::Local.from_local_datetime(&midnight).earliest().map(|day| day.timestamp_millis())
}

/// An instant further than this from the Unix epoch, in milliseconds either
/// way, has no date in `chrono`, which counts the days since the year 1 in
/// 32 bits: it is more than 2^31 days away.
pub const BEYOND_CALENDAR_MS: i64 = 200_000_000_000_000_000;

/// Whether an instant lies so far from the Unix epoch that `chrono` has no
/// date for it.
pub open spec fn beyond_calendar(timestamp: i64) -> bool {
    timestamp > BEYOND_CALENDAR_MS || timestamp < -BEYOND_CALENDAR_MS
}

/// The pattern of a date and time as people read it, as in
/// `2024-01-31 23:59:59`.
pub open spec fn readable_pattern() -> Seq<char> {
    "%Y-%m-%d %H:%M:%S"@
}

/// The pattern of a date and time fit for a file name, as in
/// `20240131_235959`.
pub open spec fn compact_pattern() -> Seq<char> {
    "%Y%m%d_%H%M%S"@
}

/// The pattern of a time of day, as in `23:59:59`.
pub open spec fn time_of_day_pattern() -> Seq<char> {
    "%H:%M:%S"@
}

/// The local date and time of an instant, written after a pattern:
/// `TimeZone::timestamp_millis_opt` and `DateTime::format` of `chrono`, in
/// the machine's time zone. `None` for an instant outside the range of
/// dates that `chrono` represents: `DateTime::from_timestamp` gives none
/// where the number of days does not fit 32 bits, and
/// `timestamp_millis_opt` then maps to nothing. Only the three patterns
/// above are asked for, which `chrono` accepts. Nothing is claimed of the
/// text.
#[verifier::external_body]
pub(crate) fn local_time_format(timestamp: i64, pattern: &str) -> (text: Option<String>)
    requires
        pattern@ == readable_pattern() || pattern@ == compact_pattern() || pattern@
            == time_of_day_pattern(),
    ensures
        beyond_calendar(timestamp) ==> text is None,
{
    let at = chrono::Local.timestamp_millis_opt(timestamp).earliest()?;
    Some(at.format(pattern).to_string())
}

} // verus!
