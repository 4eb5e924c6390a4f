use chrono::{Datelike, TimeZone, Timelike};
use vstd::prelude::*;

verus! {

pub open spec fn is_leap_year(y: int) -> bool {
    (y % 4 == 0 && y % 100 != 0) || y % 400 == 0
}

pub open spec fn days_in_month(y: int, m: int) -> int {
    if m == 2 {
        if is_leap_year(y) {
            29
        } else {
            28
        }
    } else if m == 4 || m == 6 || m == 9 || m == 11 {
        30
    } else {
        31
    }
}

/// A date and a time of day that exist on the proleptic Gregorian calendar.
pub open spec fn is_civil_time(y: int, mo: int, d: int, h: int, mi: int, s: int) -> bool {
    &&& 1 <= mo <= 12
    &&& 1 <= d <= days_in_month(y, mo)
    &&& 0 <= h < 24
    &&& 0 <= mi < 60
    &&& 0 <= s < 60
}

/// The local wall-clock time, split into calendar fields.
#[derive(Debug, Clone, Copy, PartialEq, Eq, Structural)]
pub struct LocalNow {
    pub year: i32,
    pub month: u32,
    pub day: u32,
    pub hour: u32,
    pub minute: u32,
    pub second: u32,
    /// Days since the last Sunday: 0 on Sunday, 6 on Saturday.
    pub weekday: u32,
}

/// Relies on chrono's `TimeZone::with_ymd_and_hms` for `Local` and on
/// `DateTime::timestamp_nanos_opt`: the instant, in nanoseconds since the
/// Unix epoch, at which the local zone shows the given civil time, where it
/// shows it exactly once. `with_ymd_and_hms` gives no time for a date or a
/// time of day that does not exist, so a result implies a civil time.
#[verifier::external_body]
pub(crate) fn local_timestamp_nanos(
    year: i32,
    month: u32,
    day: u32,
    hour: u32,
    minute: u32,
    second: u32,
) -> (r: Option<i64>)
    ensures
        r.is_some() ==> is_civil_time(
            year as int,
            month as int,
            day as int,
            hour as int,
            minute as int,
            second as int,
        ),
{
    match chrono::Local.with_ymd_and_hms(year, month, day, hour, minute, second) {
        chrono::LocalResult::Single(t) => t.timestamp_nanos_opt(),
        _ => None,
    }
}

/// Relies on chrono's `Local::now` and the `Datelike` / `Timelike`
/// accessors of the `DateTime` it returns, which always name an existing
/// civil time (seconds in 0..=59) and a weekday.
#[verifier::external_body]
pub(crate) fn local_now() -> (r: LocalNow)
    ensures
        is_civil_time(
            r.year as int,
            r.month as int,
            r.day as int,
            r.hour as int,
            r.minute as int,
            r.second as int,
        ),
        r.weekday < 7,
{
    let now = chrono::Local::now();
    LocalNow {
        year: now.year(),
        month: now.month(),
        day: now.day(),
        hour: now.hour(),
        minute: now.minute(),
        second: now.second(),
        weekday: now.weekday().num_days_from_sunday(),
    }
}

} // verus!
