//! Session timing: which part of the US-Eastern trading day an instant falls
//! in, and whether a new entry is allowed then. No entry before 09:45 ET or
//! after 15:45 ET; pre-market and after-hours only when enabled.
use vstd::prelude::*;
use chrono::Timelike;

verus! {

/// Part of the US-Eastern trading day.
#[derive(Debug, Clone, Copy, PartialEq, Eq, Structural)]
pub enum SessionState {
    /// Before 04:00 or from 20:00 on: no activity.
    Closed,
    /// 04:00 to 09:30: monitor only unless pre/after-hours trading is enabled.
    PreMarket,
    /// 09:30 to 09:45: monitor only.
    OpenVolatility,
    /// 09:45 to 15:45: full trading.
    TradingHours,
    /// 15:45 to 16:00: no new entries.
    CloseVolatility,
    /// 16:00 to 20:00: monitor only unless pre/after-hours trading is enabled.
    AfterHours,
}

/// Seconds after midnight of 04:00, 09:30, 09:45, 15:45, 16:00 and 20:00.
pub const T_0400: u32 = 14400;
pub const T_0930: u32 = 34200;
pub const T_0945: u32 = 35100;
pub const T_1545: u32 = 56700;
pub const T_1600: u32 = 57600;
pub const T_2000: u32 = 72000;

/// Microseconds in a second.
pub const MICROS_PER_SEC: u64 = 1_000_000;

/// The session of an instant `t` seconds after US-Eastern midnight.
pub open spec fn session_of_seconds(t: u32) -> SessionState {
    if t < T_0400 || t >= T_2000 {
        SessionState::Closed
    } else if t < T_0930 {
        SessionState::PreMarket
    } else if t < T_0945 {
        SessionState::OpenVolatility
    } else if t < T_1545 {
        SessionState::TradingHours
    } else if t < T_1600 {
        SessionState::CloseVolatility
    } else {
        SessionState::AfterHours
    }
}

/// Whether a new entry is allowed in `state`.
pub open spec fn entry_rule(state: SessionState, pre_after_enabled: bool) -> bool {
    match state {
        SessionState::TradingHours => true,
        SessionState::PreMarket | SessionState::AfterHours => pre_after_enabled,
        _ => false,
    }
}

/// Whole seconds of a timestamp given in microseconds.
pub open spec fn unix_secs(ts_micros: u64) -> i64 {
    (ts_micros / MICROS_PER_SEC) as i64
}

/// Seconds after US-Eastern midnight of the instant `secs` seconds after the
/// Unix epoch, as chrono and chrono-tz compute it; `None` when chrono cannot
/// represent the instant.
pub uninterp spec fn eastern_seconds_of_day(secs: i64) -> Option<u32>;

/// Calls `chrono::DateTime::<Utc>::from_timestamp(secs, 0)`, converts the
/// instant to `chrono_tz::US::Eastern` and reads its non-leap seconds since
/// midnight. Claimed: the result is the named value, and below 86 400 as
/// chrono documents `num_seconds_from_midnight`.
#[verifier::external_body]
pub(crate) fn eastern_time_of_day(secs: i64) -> (r: Option<u32>)
    ensures
        r == eastern_seconds_of_day(secs),
        r matches Some(t) ==> t < 86400,
{
    match chrono::DateTime::<chrono::Utc>::from_timestamp(secs, 0) {
        Some(dt) => Some(dt.with_timezone(&chrono_tz::US::Eastern).time().num_seconds_from_midnight()),
        None => None,
    }
}

/// Reads the clock with `chrono::Utc::now()` and returns the seconds since
/// US-Eastern midnight. Claimed: below 86 400; the value depends on the time
/// of the call, so nothing more is stated. chrono panics when the system
/// clock reads before the Unix epoch.
#[verifier::external_body]
fn eastern_time_of_day_now() -> (r: u32)
    ensures
        r < 86400,
{
    chrono::Utc::now().with_timezone(&chrono_tz::US::Eastern).time().num_seconds_from_midnight()
}

/// The session of an instant `seconds_of_day` seconds after US-Eastern midnight.
pub fn session_at_seconds(seconds_of_day: u32) -> (s: SessionState)
    ensures
        s == session_of_seconds(seconds_of_day),
{
    let t = seconds_of_day;
    if t < T_0400 || t >= T_2000 {
        SessionState::Closed
    } else if t < T_0930 {
        SessionState::PreMarket
    } else if t < T_0945 {
        SessionState::OpenVolatility
    } else if t < T_1545 {
        SessionState::TradingHours
    } else if t < T_1600 {
        SessionState::CloseVolatility
    } else {
        SessionState::AfterHours
    }
}

/// Session timing guard.
pub struct SessionGuard {
    pub pre_after_enabled: bool,
}

impl SessionGuard {
    pub fn new(pre_after_enabled: bool) -> (g: Self)
        ensures
            g.pre_after_enabled == pre_after_enabled,
    {
        SessionGuard { pre_after_enabled }
    }

    /// The session at `ts_micros` (UTC microseconds). Where chrono cannot
    /// represent the instant, the current time of day is used instead.
    pub fn session_state(&self, ts_micros: u64) -> (s: SessionState)
        ensures
            eastern_seconds_of_day(unix_secs(ts_micros)) matches Some(t) ==> s == session_of_seconds(t),
            exists|t: u32| t < 86400 && s == session_of_seconds(t),
    {
        let secs = (ts_micros / MICROS_PER_SEC) as i64;
        let t = match eastern_time_of_day(secs) {
            Some(t) => t,
            None => eastern_time_of_day_now(),
        };
        session_at_seconds(t)
    }

    /// Whether a new entry is allowed in `state`.
    pub fn entry_allowed_in(&self, state: SessionState) -> (b: bool)
        ensures
            b == entry_rule(state, self.pre_after_enabled),
    {
        match state {
            SessionState::TradingHours => true,
            SessionState::PreMarket | SessionState::AfterHours => self.pre_after_enabled,
            _ => false,
        }
    }

    /// Whether a new entry is allowed at `ts_micros` (UTC microseconds).
    pub fn entry_allowed(&self, ts_micros: u64) -> (b: bool)
        ensures
            eastern_seconds_of_day(unix_secs(ts_micros)) matches Some(t) ==> b == entry_rule(
                session_of_seconds(t),
                self.pre_after_enabled,
            ),
            exists|t: u32| t < 86400 && b == entry_rule(session_of_seconds(t), self.pre_after_enabled),
    {
        let state = self.session_state(ts_micros);
        self.entry_allowed_in(state)
    }
}

/// Entries are only ever allowed between 04:00 and 20:00 ET, and inside
/// 09:30-09:45 and 15:45-16:00 ET never.
pub proof fn law_entry_window(t: u32, pre_after_enabled: bool)
    ensures
        entry_rule(session_of_seconds(t), pre_after_enabled) ==> T_0400 <= t < T_2000,
        T_0930 <= t < T_0945 ==> !entry_rule(session_of_seconds(t), pre_after_enabled),
        T_1545 <= t < T_1600 ==> !entry_rule(session_of_seconds(t), pre_after_enabled),
        T_0945 <= t < T_1545 ==> entry_rule(session_of_seconds(t), pre_after_enabled),
{
}

} // verus!
