//! The market day of an instant: the US-Eastern calendar day, counted from
//! 1970-01-01, so that settlement and day-trade counting share one boundary.
use vstd::prelude::*;

verus! {

/// Days from 1970-01-01 to the US-Eastern calendar date of the instant
/// `secs` seconds and `nsecs` nanoseconds after the Unix epoch, as chrono and
/// chrono-tz compute it; `None` when chrono cannot represent the instant.
pub uninterp spec fn eastern_days_since_epoch(secs: i64, nsecs: u32) -> Option<i64>;

/// Calls `chrono::TimeZone::timestamp_opt(&Utc, secs, nsecs).single()`,
/// converts the instant to `chrono_tz::US::Eastern` and counts the days from
/// 1970-01-01 to its date with `signed_duration_since(..).num_days()`.
/// Claimed: the result is the named value. chrono panics when the Eastern
/// offset takes a date before its earliest representable day, so the instant
/// must not precede the Unix epoch.
#[verifier::external_body]
pub(crate) fn eastern_day_number(secs: i64, nsecs: u32) -> (r: Option<i64>)
    requires
        secs >= 0,
    ensures
        r == eastern_days_since_epoch(secs, nsecs),
{
    match chrono::TimeZone::timestamp_opt(&chrono::Utc, secs, nsecs).single() {
        Some(dt) => Some(
            dt.with_timezone(&chrono_tz::US::Eastern).date_naive().signed_duration_since(
                chrono::DateTime::UNIX_EPOCH.date_naive(),
            ).num_days(),
        ),
        None => None,
    }
}

/// The day ordinal kept for a day count: truncated to 32 bits, 0 when the
/// instant could not be represented.
pub open spec fn ordinal_of(days: Option<i64>) -> u32 {
    match days {
        Some(d) => d as u32,
        None => 0,
    }
}

/// The day ordinal kept for a day count (see [`ordinal_of`]).
pub fn day_ordinal(days: Option<i64>) -> (r: u32)
    ensures
        r == ordinal_of(days),
{
    match days {
        Some(d) => d as u32,
        None => 0,
    }
}

/// The market day of a UTC timestamp in microseconds (see
/// [`market_day_boundary`]).
pub open spec fn market_day(ts_micros: u64) -> u32 {
    ordinal_of(
        eastern_days_since_epoch((ts_micros / 1_000_000) as i64, ((ts_micros % 1_000_000) * 1000) as u32),
    )
}

/// US-Eastern market day of a UTC timestamp in microseconds, as days since
/// 1970-01-01 (daylight-saving transitions included).
pub fn market_day_boundary(ts_micros: u64) -> (r: u32)
    ensures
        r == market_day(ts_micros),
{
    let secs = (ts_micros / 1_000_000) as i64;
    let nsecs = ((ts_micros % 1_000_000) * 1000) as u32;
    day_ordinal(eastern_day_number(secs, nsecs))
}

} // verus!
