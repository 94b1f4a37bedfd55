//! Calendar risk: high-impact economic events (payrolls, CPI, FOMC ...)
//! make the calendar risk active within a window around their release time.
//! A list whose update date is more than seven days old keeps the risk on
//! all day.
use vstd::prelude::*;
use crate::auth::text_eq;
use crate::datetime::{eastern_day_number, eastern_days_since_epoch};
use crate::session::{eastern_seconds_of_day, eastern_time_of_day, unix_secs, MICROS_PER_SEC};

verus! {

/// One scheduled event.
#[derive(Debug, Clone)]
pub struct CalendarEvent {
    /// US-Eastern date `YYYY-MM-DD`.
    pub date: String,
    pub event: String,
    pub window_before_min: u64,
    pub window_after_min: u64,
}

/// Age of the list's update date past which it is stale, in days.
pub const CALENDAR_STALE_DAYS: i64 = 7;
/// Seconds in a day.
pub const DAY_SECS: u64 = 86400;
/// Largest window, in minutes, that chrono can turn into a duration.
pub const MAX_WINDOW_MIN: u64 = 153_722_867_280_912;

/// Release time of an event, in seconds after US-Eastern midnight.
pub open spec fn event_time_of(name: Seq<char>) -> u64 {
    if name == "NFP"@ || name == "CPI"@ || name == "PPI"@ || name == "GDP"@ {
        30600
    } else if name == "FOMC"@ || name == "FOMC Minutes"@ {
        50400
    } else if name == "OPEC"@ {
        32400
    } else {
        34200
    }
}

/// Release time of an event, in seconds after US-Eastern midnight: 08:30
/// for payrolls, CPI, PPI and GDP, 14:00 for the FOMC, 09:00 for OPEC and
/// 09:30 otherwise.
pub fn event_time(name: &str) -> (t: u64)
    ensures
        t == event_time_of(name@),
{
    if text_eq(name, "NFP") || text_eq(name, "CPI") || text_eq(name, "PPI") || text_eq(name, "GDP") {
        30600
    } else if text_eq(name, "FOMC") || text_eq(name, "FOMC Minutes") {
        50400
    } else if text_eq(name, "OPEC") {
        32400
    } else {
        34200
    }
}

/// Whether time of day `t` lies in the window of an event: from `before`
/// minutes before to `after` minutes after its release, each bound taken
/// modulo one day as clock times are.
pub open spec fn in_event_window(t: u64, release: u64, before_min: u64, after_min: u64) -> bool {
    let start = (release + DAY_SECS - (before_min * 60) % (DAY_SECS as int)) % (DAY_SECS as int);
    let end = (release + (after_min * 60) % (DAY_SECS as int)) % (DAY_SECS as int);
    start <= t && t <= end
}

/// Some event of `date` has `t` in its window.
pub open spec fn any_event_active(events: Seq<CalendarEvent>, date: Seq<char>, t: u64) -> bool {
    exists|i: int|
        0 <= i < events.len() && (#[trigger] events[i]).date@ == date && in_event_window(
            t,
            event_time_of(events[i].event@),
            events[i].window_before_min,
            events[i].window_after_min,
        )
}

/// The event windows are small enough for chrono durations.
pub open spec fn windows_bounded(events: Seq<CalendarEvent>) -> bool {
    forall|i: int|
        0 <= i < events.len() ==> (#[trigger] events[i]).window_before_min <= MAX_WINDOW_MIN
            && events[i].window_after_min <= MAX_WINDOW_MIN
}

/// US-Eastern date `YYYY-MM-DD` of the instant `secs` seconds after the Unix
/// epoch, as chrono and chrono-tz format it; `None` when chrono cannot
/// represent the instant.
pub uninterp spec fn eastern_date_text(secs: i64) -> Option<Seq<char>>;

/// Calls `chrono::DateTime::<Utc>::from_timestamp(secs, 0)`, converts to
/// `chrono_tz::US::Eastern` and formats the date with `%Y-%m-%d`. Claimed:
/// the result is the named value.
#[verifier::external_body]
fn eastern_date(secs: i64) -> (r: Option<String>)
    ensures
        r matches Some(s) ==> eastern_date_text(secs) == Some(s@),
        r is None ==> eastern_date_text(secs) is None,
{
    match chrono::DateTime::<chrono::Utc>::from_timestamp(secs, 0) {
        Some(dt) => Some(dt.with_timezone(&chrono_tz::US::Eastern).format("%Y-%m-%d").to_string()),
        None => None,
    }
}

/// Days from 1970-01-01 to the date `text` in the form `%Y-%m-%d`, as
/// chrono parses it; `None` when it does not parse.
pub uninterp spec fn date_text_days(text: Seq<char>) -> Option<i64>;

/// Calls `chrono::NaiveDate::parse_from_str(text, "%Y-%m-%d")` and counts the
/// days from 1970-01-01 with `signed_duration_since(..).num_days()`. Claimed:
/// the result is the named value.
#[verifier::external_body]
fn date_days(text: &str) -> (r: Option<i64>)
    ensures
        r == date_text_days(text@),
{
    match chrono::NaiveDate::parse_from_str(text, "%Y-%m-%d") {
        Ok(d) => Some(d.signed_duration_since(chrono::DateTime::UNIX_EPOCH.date_naive()).num_days()),
        Err(_) => None,
    }
}

/// The US-Eastern day number of `ts_micros`, else that of `now_micros` when
/// chrono cannot represent the first.
pub open spec fn eastern_day_or_now(ts_micros: u64, now_micros: u64) -> Option<i64> {
    match eastern_days_since_epoch(unix_secs(ts_micros), 0) {
        Some(d) => Some(d),
        None => eastern_days_since_epoch(unix_secs(now_micros), 0),
    }
}

/// An update date of more than seven days before `day` (or none that
/// parses, or no day to compare with) makes the list stale.
pub open spec fn stale_on(updated: Option<String>, day: Option<i64>) -> bool {
    match updated {
        None => true,
        Some(u) => match (date_text_days(u@), day) {
            (Some(ud), Some(d)) => d - ud > CALENDAR_STALE_DAYS,
            _ => true,
        },
    }
}

/// The US-Eastern date and time of day of an instant, when chrono represents
/// it.
pub open spec fn eastern_moment(ts_micros: u64) -> Option<(Seq<char>, u32)> {
    match (eastern_date_text(unix_secs(ts_micros)), eastern_seconds_of_day(unix_secs(ts_micros))) {
        (Some(d), Some(t)) => Some((d, t)),
        _ => None,
    }
}

/// The date and time at which the events are looked up: those of
/// `ts_micros`, else those of `now_micros`.
pub open spec fn lookup_moment(ts_micros: u64, now_micros: u64) -> Option<(Seq<char>, u32)> {
    match eastern_moment(ts_micros) {
        Some(m) => Some(m),
        None => eastern_moment(now_micros),
    }
}

/// Whether calendar risk is on at `ts_micros`: always when the list is stale
/// on that day or no date can be had, else when an event of that date has
/// the time of day in its window.
pub open spec fn calendar_active(
    events: Seq<CalendarEvent>,
    updated: Option<String>,
    ts_micros: u64,
    now_micros: u64,
) -> bool {
    if stale_on(updated, eastern_day_or_now(ts_micros, now_micros)) {
        true
    } else {
        match lookup_moment(ts_micros, now_micros) {
            Some(m) => any_event_active(events, m.0, m.1 as u64),
            None => true,
        }
    }
}

fn eastern_moment_of(ts_micros: u64) -> (r: Option<(String, u32)>)
    ensures
        match r {
            Some(m) => eastern_moment(ts_micros) == Some((m.0@, m.1)),
            None => eastern_moment(ts_micros) is None,
        },
{
    let secs = (ts_micros / MICROS_PER_SEC) as i64;
    match (eastern_date(secs), eastern_time_of_day(secs)) {
        (Some(d), Some(t)) => Some((d, t)),
        _ => None,
    }
}

/// The event list and when it was loaded.
pub struct CalendarRisk {
    path: String,
    events: Vec<CalendarEvent>,
    last_updated: Option<String>,
    last_loaded_micros: u64,
}

impl CalendarRisk {
    pub closed spec fn source(&self) -> String {
        self.path
    }

    pub closed spec fn event_list(&self) -> Seq<CalendarEvent> {
        self.events@
    }

    pub closed spec fn updated(&self) -> Option<String> {
        self.last_updated
    }

    /// When the list was last loaded, in microseconds since the Unix epoch.
    pub closed spec fn last_loaded(&self) -> u64 {
        self.last_loaded_micros
    }

    /// An empty list read from `path`, never loaded.
    pub fn new(path: String) -> (c: Self)
        ensures
            c.source() == path,
            c.event_list() == Seq::<CalendarEvent>::empty(),
            c.updated() is None,
            c.last_loaded() == 0,
    {
        CalendarRisk { path, events: Vec::new(), last_updated: None, last_loaded_micros: 0 }
    }

    /// Where the list is read from.
    pub fn path(&self) -> (p: &String)
        ensures
            *p == self.source(),
    {
        &self.path
    }

    /// Records a load attempt at `now_micros` that found no file.
    pub fn mark_loaded(&mut self, now_micros: u64)
        ensures
            final(self).last_loaded() == now_micros,
            final(self).event_list() == old(self).event_list(),
            final(self).updated() == old(self).updated(),
            final(self).source() == old(self).source(),
    {
        self.last_loaded_micros = now_micros;
    }

    /// Takes a freshly read list and its update date, loaded at `now_micros`.
    pub fn apply_loaded(&mut self, events: Vec<CalendarEvent>, last_updated: Option<String>, now_micros: u64)
        ensures
            final(self).event_list() == events@,
            final(self).updated() == last_updated,
            final(self).last_loaded() == now_micros,
            final(self).source() == old(self).source(),
    {
        self.events = events;
        self.last_updated = last_updated;
        self.last_loaded_micros = now_micros;
    }

    /// Whether some event of `date` has the time of day `t` in its window.
    pub fn active_at(&self, date: &str, t: u64) -> (b: bool)
        requires
            windows_bounded(self.event_list()),
        ensures
            b == any_event_active(self.event_list(), date@, t),
    {
        let n = self.events.len();
        let mut i: usize = 0;
        while i < n
            invariant
                n == self.events@.len(),
                i <= n,
                windows_bounded(self.events@),
                forall|j: int|
                    0 <= j < i ==> !((#[trigger] self.events@[j]).date@ == date@ && in_event_window(
                        t,
                        event_time_of(self.events@[j].event@),
                        self.events@[j].window_before_min,
                        self.events@[j].window_after_min,
                    )),
            decreases n - i,
        {
            let e = &self.events[i];
            if text_eq(e.date.as_str(), date) {
                let release = event_time(e.event.as_str());
                let before = (e.window_before_min * 60) % DAY_SECS;
                let after = (e.window_after_min * 60) % DAY_SECS;
                let start = (release + DAY_SECS - before) % DAY_SECS;
                let end = (release + after) % DAY_SECS;
                if start <= t && t <= end {
                    proof {
                        assert(self.events@[i as int] == *e);
                    }
                    return true;
                }
            }
            i = i + 1;
        }
        false
    }

    /// Whether calendar risk is active at `ts_micros` (see
    /// [`calendar_active`]); `now_micros` stands in when chrono cannot
    /// represent `ts_micros`.
    pub fn is_active(&self, ts_micros: u64, now_micros: u64) -> (b: bool)
        requires
            windows_bounded(self.event_list()),
        ensures
            b == calendar_active(self.event_list(), self.updated(), ts_micros, now_micros),
    {
        let day = match eastern_day_number((ts_micros / MICROS_PER_SEC) as i64, 0) {
            Some(d) => Some(d),
            None => eastern_day_number((now_micros / MICROS_PER_SEC) as i64, 0),
        };
        let stale = match &self.last_updated {
            None => true,
            Some(u) => match (date_days(u.as_str()), day) {
                (Some(ud), Some(d)) => ud <= i64::MAX - CALENDAR_STALE_DAYS && d > ud + CALENDAR_STALE_DAYS,
                _ => true,
            },
        };
        if stale {
            return true;
        }
        let moment = match eastern_moment_of(ts_micros) {
            Some(m) => Some(m),
            None => eastern_moment_of(now_micros),
        };
        match moment {
            Some((date, t)) => self.active_at(date.as_str(), t as u64),
            None => true,
        }
    }
}

} // verus!
