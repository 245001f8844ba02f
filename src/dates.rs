//! Calendar days as day numbers (days since the common era, 0001-01-01 being
//! day 1). Timestamps are read in UTC.

use vstd::prelude::*;

verus! {

/// Milliseconds in one day.
pub const MILLIS_PER_DAY: i64 = 86_400_000;

/// Day number of 1970-01-01.
pub const EPOCH_DAY_NUMBER: i64 = 719_163;

/// Earliest timestamp whose day is compared: the first millisecond of the
/// day 90,000,000 days before the epoch (about 246,000 years).
pub const MIN_COMPARED_MILLIS: i64 = -7_776_000_000_000_000;

/// Latest timestamp whose day is compared: the last millisecond of the day
/// 90,000,000 days after the epoch. The compared range is whole days.
pub const MAX_COMPARED_MILLIS: i64 = 7_776_000_086_399_999;

/// Day number, in UTC, of the timestamp `ms` milliseconds after the epoch.
pub open spec fn day_of_millis(ms: int) -> int {
    ms / (MILLIS_PER_DAY as int) + EPOCH_DAY_NUMBER as int
}

/// The timestamps whose day the library compares.
pub open spec fn millis_in_range(ms: int) -> bool {
    MIN_COMPARED_MILLIS as int <= ms <= MAX_COMPARED_MILLIS as int
}

/// Day number of the date that `NaiveDate::parse_from_str(s, "%Y-%m-%d")`
/// reads from `s`, or `None` where it refuses `s`.
pub uninterp spec fn ymd_day_number(s: Seq<char>) -> Option<int>;

/// Relies on chrono's `NaiveDateTime::from_timestamp_millis` (UTC) and
/// `Datelike::num_days_from_ce`: the day of the timestamp, counted from the
/// common era; chrono's range covers every timestamp admitted here.
#[verifier::external_body]
pub(crate) fn utc_day_number(ms: i64) -> (r: Option<i32>)
    requires
        millis_in_range(ms as int),
    ensures
        r is Some,
        r->0 as int == day_of_millis(ms as int),
{
    #[allow(deprecated)]
    let date_time = chrono::NaiveDateTime::from_timestamp_millis(ms);
    date_time.map(|d| chrono::Datelike::num_days_from_ce(&d.date()))
}

/// Relies on chrono's `NaiveDate::parse_from_str` with the format
/// `%Y-%m-%d`, and on `Datelike::num_days_from_ce` to number the date read.
#[verifier::external_body]
pub(crate) fn parse_ymd(s: &str) -> (r: Option<i32>)
    ensures
        match r {
            Some(n) => ymd_day_number(s@) == Some(n as int),
            None => ymd_day_number(s@) is None,
        },
{
    let parsed = chrono::NaiveDate::parse_from_str(s, "%Y-%m-%d");
    parsed.ok().map(|d| chrono::Datelike::num_days_from_ce(&d))
}

/// Day number of a UTC timestamp, or `None` for a timestamp outside the
/// compared range.
pub fn day_number_of_millis(ms: i64) -> (r: Option<i32>)
    ensures
        r is Some <==> millis_in_range(ms as int),
        r is Some ==> r->0 as int == day_of_millis(ms as int),
{
    if MIN_COMPARED_MILLIS <= ms && ms <= MAX_COMPARED_MILLIS {
        utc_day_number(ms)
    } else {
        None
    }
}

} // verus!
