//! Lid and power readings, the modifier rules, and recurring schedules.

use vstd::prelude::*;
use crate::clock::{ClockTime, LocalDateTime};
use crate::days::{DaysOfWeek, Weekday, previous_day};

verus! {

/// Whether the laptop lid is open or closed.
#[derive(Debug, Clone, Copy, PartialEq, Eq, Structural)]
pub enum LidState {
    Open,
    Closed,
}

impl Default for LidState {
    /// An unknown lid reads as open.
    fn default() -> (r: LidState)
        ensures
            r == LidState::Open,
    {
        LidState::Open
    }
}

/// Where the machine draws power from.
#[derive(Debug, Clone, Copy, PartialEq, Eq, Structural)]
pub enum PowerSource {
    Ac,
    Battery { percent: u8 },
}

impl Default for PowerSource {
    /// An unknown source reads as AC power.
    fn default() -> (r: PowerSource)
        ensures
            r == PowerSource::Ac,
    {
        PowerSource::Ac
    }
}

/// A recurring weekly window of active hours.
///
/// When `start <= end` the window is `[start, end)` on each listed day. When
/// `start > end` it crosses midnight: it runs from `start` on a listed day
/// until `end` on the following morning.
#[derive(Debug, Clone, Copy, PartialEq, Eq, Structural)]
pub struct Schedule {
    pub days: DaysOfWeek,
    pub start: ClockTime,
    pub end: ClockTime,
}

/// Whether the window `s` covers local weekday `day` at time of day `t`.
pub open spec fn window_covers(s: Schedule, day: Weekday, t: ClockTime) -> bool {
    if s.start.le(s.end) {
        s.days.has(day) && s.start.le(t) && t.lt(s.end)
    } else {
        (s.days.has(day) && s.start.le(t)) || (s.days.has(previous_day(day)) && t.lt(s.end))
    }
}

/// The whole-second time of day at which a local date-time falls.
pub open spec fn second_of(now: LocalDateTime) -> ClockTime {
    ClockTime { secs: now.time.secs, nanos: 0 }
}

impl Schedule {
    /// Whether the local date-time `now` falls within this window. Only
    /// whole seconds of `now` count.
    pub open spec fn covers(self, now: LocalDateTime) -> bool {
        window_covers(self, now.weekday, second_of(now))
    }

    /// Returns true if `now` falls within this schedule window.
    pub fn contains(&self, now: &LocalDateTime) -> (r: bool)
        ensures
            r == self.covers(*now),
    {
        let today = now.weekday;
        let now_t = now.time.whole_second();
        if self.start.is_at_or_before(&self.end) {
            self.days.has_day(today) && self.start.is_at_or_before(&now_t) && now_t.is_before(
                &self.end,
            )
        } else {
            if self.days.has_day(today) && self.start.is_at_or_before(&now_t) {
                return true;
            }
            let yesterday = today.previous();
            self.days.has_day(yesterday) && now_t.is_before(&self.end)
        }
    }
}

/// Rules that further gate sleep prevention while it is switched on.
#[derive(Debug, Clone, Copy, PartialEq, Eq, Structural)]
pub struct Modifiers {
    pub only_on_ac: bool,
    pub min_battery: Option<u8>,
    pub schedule: Option<Schedule>,
}

impl Default for Modifiers {
    /// All rules off.
    fn default() -> (r: Modifiers)
        ensures
            !r.only_on_ac,
            r.min_battery is None,
            r.schedule is None,
    {
        Modifiers { only_on_ac: false, min_battery: None, schedule: None }
    }
}

/// A same-day window never covers the instant at which it ends.
pub proof fn law_same_day_window_excludes_end(s: Schedule, day: Weekday)
    requires
        s.start.lt(s.end),
        s.end.nanos == 0,
    ensures
        !window_covers(s, day, s.end),
{
}

/// A same-day window covering all seven days covers exactly the times from
/// its start (inclusive) to its end (exclusive), whatever the weekday.
pub proof fn law_daily_window_ignores_weekday(s: Schedule, day: Weekday, t: ClockTime)
    requires
        s.start.le(s.end),
        forall|d: Weekday| s.days.has(d),
    ensures
        window_covers(s, day, t) <==> (s.start.le(t) && t.lt(s.end)),
{
}

/// In a window that crosses midnight, the early-morning hours belong to the
/// previous day: before `end`, the window is active exactly when the
/// previous day is listed (or today is listed and `t` is past `start`).
pub proof fn law_overnight_window_uses_previous_day(s: Schedule, day: Weekday, t: ClockTime)
    requires
        s.end.lt(s.start),
        t.lt(s.end),
    ensures
        window_covers(s, day, t) <==> s.days.has(previous_day(day)),
{
}

/// A window that crosses midnight leaves a gap: no time from its end up to
/// its start is covered, on any weekday.
pub proof fn law_overnight_window_gap(s: Schedule, day: Weekday, t: ClockTime)
    requires
        s.end.lt(s.start),
        s.end.le(t),
        t.lt(s.start),
    ensures
        !window_covers(s, day, t),
{
}

/// On a listed day, a window that crosses midnight covers a time at or
/// after its end exactly when that time is at or after its start: the
/// day's part of the window begins at `start`, not earlier.
pub proof fn law_overnight_window_starts_at_start(s: Schedule, day: Weekday, t: ClockTime)
    requires
        s.end.lt(s.start),
        s.days.has(day),
        s.end.le(t),
    ensures
        window_covers(s, day, t) <==> s.start.le(t),
{
}

/// A moment is covered by a window only on a listed day or on the morning
/// after one: a schedule never covers a time more than a day away from a
/// listed day's start.
pub proof fn law_window_needs_listed_day(s: Schedule, day: Weekday, t: ClockTime)
    requires
        !s.days.has(day),
        !s.days.has(previous_day(day)),
    ensures
        !window_covers(s, day, t),
{
}

} // verus!
