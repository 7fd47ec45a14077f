//! The preferences window's protocol: the messages its page posts, what
//! each asks the runtime to change, and the state it is shown.

use vstd::prelude::*;
use crate::clock::{ClockTime, chrono_hh_mm, hh_mm, parse_hh_mm};
use crate::days::{DaysOfWeek, Weekday, day_with_lower_name, every_day, lower, lower_day_name,
    no_days};
use crate::ipc::Snapshot;
use crate::mode::Schedule;
use crate::text::{chars_of, push_chars, push_lit, string_of};

verus! {

/// Battery threshold offered when none is set or a value is out of range.
pub const DEFAULT_BATTERY_PCT: u8 = 20;

/// In-transit timeout (minutes) offered when none is set or a value is out
/// of range.
pub const DEFAULT_IN_TRANSIT_MINUTES: u32 = 2;

/// Default start of a new schedule: 09:00.
pub const DEFAULT_SCHEDULE_START_SECS: u32 = 32400;

/// Default end of a new schedule: 17:00.
pub const DEFAULT_SCHEDULE_END_SECS: u32 = 61200;

/// A message posted by the preferences page.
#[derive(Debug, Clone, PartialEq, Eq)]
pub enum WebPrefsMessage {
    /// The page loaded and wants the current state.
    Ready,
    StartAtLogin { enabled: bool },
    ActivateAtLaunch { enabled: bool },
    PreventDisplaySleep { enabled: bool },
    BatteryThreshold { enabled: bool, value: Option<u16> },
    InTransitTimeout { enabled: bool, value: Option<u32> },
    Schedule {
        enabled: bool,
        start: Option<String>,
        end: Option<String>,
        days: Option<Vec<String>>,
    },
}

/// The change a page message asks for.
#[derive(Debug, Clone, PartialEq, Eq)]
pub enum PrefsCommand {
    /// Nothing to change.
    Nothing,
    StartAtLogin(bool),
    ActivateAtLaunch(bool),
    PreventDisplaySleep(bool),
    BatteryThreshold(Option<u8>),
    InTransitTimeout(Option<u32>),
    Schedule(Option<Schedule>),
}

/// Why a page message was ignored.
#[derive(Debug)]
pub enum WebPrefsError {
    /// A time that is not `HH:MM`, with chrono's reason.
    BadTime { raw: String, cause: chrono::format::ParseError },
    /// A day name other than `mon` .. `sun`.
    UnknownDay(String),
}

/// The threshold a battery message asks for: off, or the value when it is
/// a percentage from 1 to 100, else the default.
pub open spec fn battery_choice(enabled: bool, value: Option<u16>) -> Option<u8> {
    if !enabled {
        None
    } else {
        match value {
            Some(v) if 1 <= v <= 100 => Some(v as u8),
            _ => Some(DEFAULT_BATTERY_PCT),
        }
    }
}

/// The timeout an in-transit message asks for: off, or the value when it
/// is from 1 to 120 minutes, else the default.
pub open spec fn in_transit_choice(enabled: bool, value: Option<u32>) -> Option<u32> {
    if !enabled {
        None
    } else {
        match value {
            Some(v) if 1 <= v <= 120 => Some(v),
            _ => Some(DEFAULT_IN_TRANSIT_MINUTES),
        }
    }
}

/// Clamp a battery message to the threshold it asks for.
pub fn battery_threshold_choice(enabled: bool, value: Option<u16>) -> (r: Option<u8>)
    ensures
        r == battery_choice(enabled, value),
{
    if !enabled {
        return None;
    }
    match value {
        Some(v) => if 1 <= v && v <= 100 {
            Some(v as u8)
        } else {
            Some(DEFAULT_BATTERY_PCT)
        },
        None => Some(DEFAULT_BATTERY_PCT),
    }
}

/// Clamp an in-transit message to the timeout it asks for.
pub fn in_transit_timeout_choice(enabled: bool, value: Option<u32>) -> (r: Option<u32>)
    ensures
        r == in_transit_choice(enabled, value),
{
    if !enabled {
        return None;
    }
    match value {
        Some(v) => if 1 <= v && v <= 120 {
            Some(v)
        } else {
            Some(DEFAULT_IN_TRANSIT_MINUTES)
        },
        None => Some(DEFAULT_IN_TRANSIT_MINUTES),
    }
}

/// Reading the page's day names (`mon` .. `sun`, exactly): the set, or the
/// first unknown name.
pub open spec fn web_days(names: Seq<Seq<char>>) -> Result<DaysOfWeek, Seq<char>>
    decreases names.len(),
{
    if names.len() == 0 {
        Ok(no_days())
    } else {
        match web_days(names.drop_last()) {
            Err(e) => Err(e),
            Ok(set) => match day_with_lower_name(names.last()) {
                Some(d) => Ok(set.with_day(d)),
                None => Err(names.last()),
            },
        }
    }
}

/// The days a schedule message asks for: every day when none are given
/// (or none are selected), else the named days.
pub open spec fn web_days_choice(raw: Option<Seq<Seq<char>>>) -> Result<DaysOfWeek, Seq<char>> {
    match raw {
        None => Ok(every_day()),
        Some(names) => match web_days(names) {
            Err(e) => Err(e),
            Ok(d) => if d == no_days() {
                Ok(every_day())
            } else {
                Ok(d)
            },
        },
    }
}

proof fn lemma_web_days_prefix_error(names: Seq<Seq<char>>, k: int)
    requires
        0 <= k <= names.len(),
        web_days(names.take(k)) is Err,
    ensures
        web_days(names) == web_days(names.take(k)),
    decreases names.len() - k,
{
    if k < names.len() {
        assert(names.take(k + 1).drop_last() =~= names.take(k));
        lemma_web_days_prefix_error(names, k + 1);
    } else {
        assert(names.take(k) =~= names);
    }
}

/// The texts of an optional list of strings.
pub open spec fn names_view(raw: Option<&Vec<String>>) -> Option<Seq<Seq<char>>> {
    match raw {
        Some(v) => Some(v@.map_values(|s: String| s@)),
        None => None,
    }
}

/// Read the page's day list. An unknown name is reported; an empty
/// selection means every day.
pub fn days_from_web(raw: Option<&Vec<String>>) -> (r: Result<DaysOfWeek, String>)
    ensures
        match r {
            Ok(d) => web_days_choice(names_view(raw)) == Ok::<DaysOfWeek, Seq<char>>(d),
            Err(t) => web_days_choice(names_view(raw)) == Err::<DaysOfWeek, Seq<char>>(t@),
        },
{
    let names = match raw {
        None => return Ok(DaysOfWeek::all()),
        Some(v) => v,
    };
    let ghost all = names@.map_values(|s: String| s@);
    let mut days = DaysOfWeek::empty();
    let mut i: usize = 0;
    assert(all.take(0) =~= Seq::<Seq<char>>::empty());
    while i < names.len()
        invariant
            i <= names.len(),
            all == names@.map_values(|s: String| s@),
            raw == Some(names),
            web_days(all.take(i as int)) == Ok::<DaysOfWeek, Seq<char>>(days),
        decreases names.len() - i,
    {
        let n = chars_of(names[i].as_str());
        assert(all.take(i + 1).drop_last() =~= all.take(i as int));
        assert(all.take(i + 1).last() == n@);
        match Weekday::from_lower_name(&n) {
            Some(d) => days.insert(d),
            None => {
                proof {
                    assert(web_days(all.take(i + 1)) == Err::<DaysOfWeek, Seq<char>>(n@));
                    lemma_web_days_prefix_error(all, i + 1);
                    assert(web_days(all) == Err::<DaysOfWeek, Seq<char>>(n@));
                }
                let t = string_of(&n);
                assert(web_days_choice(names_view(raw)) == Err::<DaysOfWeek, Seq<char>>(t@));
                return Err(t);
            },
        }
        i = i + 1;
    }
    assert(all.take(all.len() as int) =~= all);
    if !(days.mon || days.tue || days.wed || days.thu || days.fri || days.sat || days.sun) {
        assert(days == no_days());
        Ok(DaysOfWeek::all())
    } else {
        assert(days != no_days());
        Ok(days)
    }
}

/// A time from the page, or the default when none is given.
pub open spec fn web_time(raw: Option<Seq<char>>, default: ClockTime) -> Option<ClockTime> {
    match raw {
        None => Some(default),
        Some(t) => match chrono_hh_mm(t) {
            Some(m) => Some(ClockTime { secs: (m * 60) as u32, nanos: 0 }),
            None => None,
        },
    }
}

fn parse_web_time(raw: Option<&String>, default: ClockTime) -> (r: Result<ClockTime, WebPrefsError>)
    ensures
        match r {
            Ok(t) => web_time(opt_str(raw), default) == Some(t) && (raw is Some ==> t.wf()),
            Err(WebPrefsError::BadTime { raw: bad, .. }) => {
                &&& web_time(opt_str(raw), default) is None
                &&& (raw matches Some(x) && bad@ == x@)
            },
            Err(_) => false,
        },
{
    match raw {
        None => Ok(default),
        Some(value) => match parse_hh_mm(value.as_str()) {
            Ok(t) => Ok(t),
            Err(e) => Err(WebPrefsError::BadTime { raw: string_of(&chars_of(value.as_str())), cause: e }),
        },
    }
}

/// The text of an optional string.
pub open spec fn opt_str(raw: Option<&String>) -> Option<Seq<char>> {
    match raw {
        Some(s) => Some(s@),
        None => None,
    }
}

/// The schedule a schedule message asks for (`None` when a time cannot be
/// read or a day is unknown): start and end default to 09:00 and 17:00;
/// an empty window is widened by one minute at its end.
pub open spec fn web_schedule(
    start: Option<Seq<char>>,
    end: Option<Seq<char>>,
    days: Option<Seq<Seq<char>>>,
) -> Option<Schedule> {
    let s = web_time(start, ClockTime { secs: DEFAULT_SCHEDULE_START_SECS, nanos: 0 });
    let e = web_time(end, ClockTime { secs: DEFAULT_SCHEDULE_END_SECS, nanos: 0 });
    match (s, e) {
        (Some(s), Some(e)) => {
            let e2 = if s == e {
                ClockTime { secs: ((e.secs + 60) % 86400) as u32, nanos: e.nanos }
            } else {
                e
            };
            match web_days_choice(days) {
                Ok(d) => Some(Schedule { days: d, start: s, end: e2 }),
                Err(_) => None,
            }
        },
        _ => None,
    }
}

/// Which error a schedule message that cannot be read gives: the start
/// time when it is unreadable, else the end time, else the first unknown
/// day name.
pub open spec fn schedule_error_fits(
    e: WebPrefsError,
    start: Option<Seq<char>>,
    end: Option<Seq<char>>,
    days: Option<Seq<Seq<char>>>,
) -> bool {
    let s = web_time(start, ClockTime { secs: DEFAULT_SCHEDULE_START_SECS, nanos: 0 });
    let t = web_time(end, ClockTime { secs: DEFAULT_SCHEDULE_END_SECS, nanos: 0 });
    match e {
        WebPrefsError::BadTime { raw, .. } => if s is None {
            start == Some(raw@)
        } else {
            t is None && end == Some(raw@)
        },
        WebPrefsError::UnknownDay(name) => s is Some && t is Some && web_days_choice(days) == Err::<
            DaysOfWeek,
            Seq<char>,
        >(name@),
    }
}

/// Build the schedule a schedule message asks for.
pub fn schedule_from_web(
    start: Option<&String>,
    end: Option<&String>,
    days: Option<&Vec<String>>,
) -> (r: Result<Schedule, WebPrefsError>)
    ensures
        match r {
            Ok(x) => web_schedule(opt_str(start), opt_str(end), names_view(days)) == Some(x),
            Err(e) => {
                &&& web_schedule(opt_str(start), opt_str(end), names_view(days)) is None
                &&& schedule_error_fits(e, opt_str(start), opt_str(end), names_view(days))
            },
        },
{
    let s = parse_web_time(start, ClockTime { secs: DEFAULT_SCHEDULE_START_SECS, nanos: 0 })?;
    let e = parse_web_time(end, ClockTime { secs: DEFAULT_SCHEDULE_END_SECS, nanos: 0 })?;
    let e2 = if s.same_as(&e) {
        e.plus_one_minute()
    } else {
        e
    };
    match days_from_web(days) {
        Ok(d) => Ok(Schedule { days: d, start: s, end: e2 }),
        Err(name) => Err(WebPrefsError::UnknownDay(name)),
    }
}

/// The change a page message asks for, or `None` when it cannot be read.
pub open spec fn message_command(m: WebPrefsMessage) -> Option<PrefsCommand> {
    match m {
        WebPrefsMessage::Ready => Some(PrefsCommand::Nothing),
        WebPrefsMessage::StartAtLogin { enabled } => Some(PrefsCommand::StartAtLogin(enabled)),
        WebPrefsMessage::ActivateAtLaunch { enabled } => Some(
            PrefsCommand::ActivateAtLaunch(enabled),
        ),
        WebPrefsMessage::PreventDisplaySleep { enabled } => Some(
            PrefsCommand::PreventDisplaySleep(enabled),
        ),
        WebPrefsMessage::BatteryThreshold { enabled, value } => Some(
            PrefsCommand::BatteryThreshold(battery_choice(enabled, value)),
        ),
        WebPrefsMessage::InTransitTimeout { enabled, value } => Some(
            PrefsCommand::InTransitTimeout(in_transit_choice(enabled, value)),
        ),
        WebPrefsMessage::Schedule { enabled, start, end, days } => if !enabled {
            Some(PrefsCommand::Schedule(None))
        } else {
            match web_schedule(
                match start {
                    Some(s) => Some(s@),
                    None => None,
                },
                match end {
                    Some(s) => Some(s@),
                    None => None,
                },
                match days {
                    Some(v) => Some(v@.map_values(|s: String| s@)),
                    None => None,
                },
            ) {
                Some(x) => Some(PrefsCommand::Schedule(Some(x))),
                None => None,
            }
        },
    }
}

/// Which error an unreadable page message gives: only an enabled schedule
/// message can be unreadable, and its error is the schedule's.
pub open spec fn message_error_fits(e: WebPrefsError, m: WebPrefsMessage) -> bool {
    match m {
        WebPrefsMessage::Schedule { enabled, start, end, days } => enabled && schedule_error_fits(
            e,
            match start {
                Some(s) => Some(s@),
                None => None,
            },
            match end {
                Some(s) => Some(s@),
                None => None,
            },
            match days {
                Some(v) => Some(v@.map_values(|s: String| s@)),
                None => None,
            },
        ),
        _ => false,
    }
}

/// The change a page message asks for. A disabled schedule clears the
/// schedule; an enabled one must be readable.
pub fn web_message_command(msg: WebPrefsMessage) -> (r: Result<PrefsCommand, WebPrefsError>)
    ensures
        match r {
            Ok(c) => message_command(msg) == Some(c),
            Err(e) => message_command(msg) is None && message_error_fits(e, msg),
        },
{
    match msg {
        WebPrefsMessage::Ready => Ok(PrefsCommand::Nothing),
        WebPrefsMessage::StartAtLogin { enabled } => Ok(PrefsCommand::StartAtLogin(enabled)),
        WebPrefsMessage::ActivateAtLaunch { enabled } => Ok(PrefsCommand::ActivateAtLaunch(enabled)),
        WebPrefsMessage::PreventDisplaySleep { enabled } => Ok(
            PrefsCommand::PreventDisplaySleep(enabled),
        ),
        WebPrefsMessage::BatteryThreshold { enabled, value } => Ok(
            PrefsCommand::BatteryThreshold(battery_threshold_choice(enabled, value)),
        ),
        WebPrefsMessage::InTransitTimeout { enabled, value } => Ok(
            PrefsCommand::InTransitTimeout(in_transit_timeout_choice(enabled, value)),
        ),
        WebPrefsMessage::Schedule { enabled, start, end, days } => if !enabled {
            Ok(PrefsCommand::Schedule(None))
        } else {
            match schedule_from_web(start.as_ref(), end.as_ref(), days.as_ref()) {
                Ok(x) => Ok(PrefsCommand::Schedule(Some(x))),
                Err(e) => Err(e),
            }
        },
    }
}

/// What the preferences window can change. Implemented over the runtime
/// by the menu-bar role (and by recorders in tests).
pub trait PrefsActions {
    fn set_start_at_login(&self, enabled: bool);

    fn set_activate_at_launch(&self, enabled: bool);

    fn set_battery_threshold(&self, pct: Option<u8>);

    fn set_prevent_display_sleep(&self, enabled: bool);

    /// `None` clears the schedule; `Some` sets it.
    fn set_schedule(&self, schedule: Option<Schedule>);

    /// `None` switches the in-transit rule off; `Some(n)` sets its timeout.
    fn set_in_transit_timeout(&self, minutes: Option<u32>);
}

/// The action that carries out a command was called with the command's
/// value (a command to change nothing calls none).
pub open spec fn action_called<A: PrefsActions>(actions: &A, c: PrefsCommand) -> bool {
    match c {
        PrefsCommand::Nothing => true,
        PrefsCommand::StartAtLogin(v) => call_ensures(A::set_start_at_login, (actions, v), ()),
        PrefsCommand::ActivateAtLaunch(v) => call_ensures(
            A::set_activate_at_launch,
            (actions, v),
            (),
        ),
        PrefsCommand::PreventDisplaySleep(v) => call_ensures(
            A::set_prevent_display_sleep,
            (actions, v),
            (),
        ),
        PrefsCommand::BatteryThreshold(v) => call_ensures(A::set_battery_threshold, (actions, v), ()),
        PrefsCommand::InTransitTimeout(v) => call_ensures(
            A::set_in_transit_timeout,
            (actions, v),
            (),
        ),
        PrefsCommand::Schedule(v) => call_ensures(A::set_schedule, (actions, v), ()),
    }
}

/// Carry out a page message: compute the change it asks for and hand it to
/// the matching method of `actions`. A message that cannot be read changes
/// nothing and is returned as the error.
pub fn apply_web_message<A: PrefsActions>(actions: &A, msg: WebPrefsMessage) -> (r: Result<
    PrefsCommand,
    WebPrefsError,
>)
    ensures
        match r {
            Ok(c) => message_command(msg) == Some(c) && action_called(actions, c),
            Err(e) => message_command(msg) is None && message_error_fits(e, msg),
        },
{
    let cmd = web_message_command(msg)?;
    match &cmd {
        PrefsCommand::Nothing => {},
        PrefsCommand::StartAtLogin(v) => actions.set_start_at_login(*v),
        PrefsCommand::ActivateAtLaunch(v) => actions.set_activate_at_launch(*v),
        PrefsCommand::PreventDisplaySleep(v) => actions.set_prevent_display_sleep(*v),
        PrefsCommand::BatteryThreshold(v) => actions.set_battery_threshold(*v),
        PrefsCommand::InTransitTimeout(v) => actions.set_in_transit_timeout(*v),
        PrefsCommand::Schedule(v) => actions.set_schedule(*v),
    }
    Ok(cmd)
}

/// An on/off setting with a number.
#[derive(Debug, Clone, Copy, PartialEq, Eq, Structural)]
pub struct WebNumberSetting {
    pub enabled: bool,
    pub value: u32,
}

/// The schedule as the page shows it.
#[derive(Debug, Clone, PartialEq, Eq)]
pub struct WebScheduleSetting {
    pub enabled: bool,
    pub start: String,
    pub end: String,
    pub days: Vec<String>,
}

/// The state the page shows.
#[derive(Debug, Clone, PartialEq, Eq)]
pub struct WebPrefsSnapshot {
    pub start_at_login: bool,
    pub activate_at_launch: bool,
    pub prevent_display_sleep: bool,
    pub battery_threshold: WebNumberSetting,
    pub in_transit_timeout: WebNumberSetting,
    pub schedule: WebScheduleSetting,
}

/// The lower-case names of the days in a set, Monday first.
pub open spec fn web_day_names(d: DaysOfWeek) -> Seq<Seq<char>> {
    d.names().map_values(|n: Seq<char>| lower(n))
}

/// The page's day list for a set of days.
pub fn days_to_web(days: DaysOfWeek) -> (r: Vec<String>)
    ensures
        r@.len() == web_day_names(days).len(),
        forall|i: int| 0 <= i < r@.len() ==> #[trigger] r@[i]@ == web_day_names(days)[i],
{
    proof {
        crate::days::lemma_lower_names();
    }
    let names = days.names_list();
    let mut out: Vec<String> = Vec::new();
    let mut i: usize = 0;
    while i < names.len()
        invariant
            i <= names.len(),
            names@.len() == days.names().len(),
            forall|j: int| 0 <= j < names@.len() ==> #[trigger] names@[j]@ == days.names()[j],
            out@.len() == i,
            forall|j: int| 0 <= j < i ==> #[trigger] out@[j]@ == web_day_names(days)[j],
        decreases names.len() - i,
    {
        let lowered = crate::commands::lower_chars(&names[i]);
        out.push(string_of(&lowered));
        i = i + 1;
    }
    out
}

/// The page's view of a snapshot: the toggles, each number setting with
/// its default when off, and the schedule (09:00-17:00 every day when
/// none is set).
pub fn snapshot_to_web(snap: &Snapshot) -> (r: WebPrefsSnapshot)
    ensures
        r.start_at_login == snap.start_at_login,
        r.activate_at_launch == snap.activate_at_launch,
        r.prevent_display_sleep == snap.prevent_display_sleep,
        r.battery_threshold == (WebNumberSetting {
            enabled: snap.battery_threshold_pct is Some,
            value: match snap.battery_threshold_pct {
                Some(p) => p as u32,
                None => DEFAULT_BATTERY_PCT as u32,
            },
        }),
        r.in_transit_timeout == (WebNumberSetting {
            enabled: snap.in_transit_timeout_minutes is Some,
            value: match snap.in_transit_timeout_minutes {
                Some(m) => m,
                None => DEFAULT_IN_TRANSIT_MINUTES,
            },
        }),
        r.schedule.enabled == snap.modifiers.schedule is Some,
        ({
            let s = match snap.modifiers.schedule {
                Some(x) => x,
                None => Schedule {
                    days: every_day(),
                    start: ClockTime { secs: DEFAULT_SCHEDULE_START_SECS, nanos: 0 },
                    end: ClockTime { secs: DEFAULT_SCHEDULE_END_SECS, nanos: 0 },
                },
            };
            &&& r.schedule.start@ == hh_mm(s.start)
            &&& r.schedule.end@ == hh_mm(s.end)
            &&& r.schedule.days@.len() == web_day_names(s.days).len()
            &&& forall|i: int|
                0 <= i < r.schedule.days@.len() ==> #[trigger] r.schedule.days@[i]@
                    == web_day_names(s.days)[i]
        }),
{
    let s = match &snap.modifiers.schedule {
        Some(x) => *x,
        None => Schedule {
            days: DaysOfWeek::all(),
            start: ClockTime { secs: DEFAULT_SCHEDULE_START_SECS, nanos: 0 },
            end: ClockTime { secs: DEFAULT_SCHEDULE_END_SECS, nanos: 0 },
        },
    };
    WebPrefsSnapshot {
        start_at_login: snap.start_at_login,
        activate_at_launch: snap.activate_at_launch,
        prevent_display_sleep: snap.prevent_display_sleep,
        battery_threshold: WebNumberSetting {
            enabled: snap.battery_threshold_pct.is_some(),
            value: match snap.battery_threshold_pct {
                Some(p) => p as u32,
                None => DEFAULT_BATTERY_PCT as u32,
            },
        },
        in_transit_timeout: WebNumberSetting {
            enabled: snap.in_transit_timeout_minutes.is_some(),
            value: match snap.in_transit_timeout_minutes {
                Some(m) => m,
                None => DEFAULT_IN_TRANSIT_MINUTES,
            },
        },
        schedule: WebScheduleSetting {
            enabled: snap.modifiers.schedule.is_some(),
            start: string_of(&s.start.format_hh_mm()),
            end: string_of(&s.end.format_hh_mm()),
            days: days_to_web(s.days),
        },
    }
}

/// Each on/off preference message asks for exactly the value it carries,
/// and can always be read.
pub proof fn law_toggle_messages_pass_value_through(b: bool)
    ensures
        message_command(WebPrefsMessage::StartAtLogin { enabled: b }) == Some(
            PrefsCommand::StartAtLogin(b),
        ),
        message_command(WebPrefsMessage::ActivateAtLaunch { enabled: b }) == Some(
            PrefsCommand::ActivateAtLaunch(b),
        ),
        message_command(WebPrefsMessage::PreventDisplaySleep { enabled: b }) == Some(
            PrefsCommand::PreventDisplaySleep(b),
        ),
{
}

/// A battery message switched off clears the threshold; switched on with
/// a percentage from 1 to 100 it sets that percentage, and otherwise the
/// default of 20.
pub proof fn law_battery_message_threshold(enabled: bool, value: Option<u16>)
    ensures
        !enabled ==> message_command(WebPrefsMessage::BatteryThreshold { enabled, value }) == Some(
            PrefsCommand::BatteryThreshold(None),
        ),
        enabled && (value matches Some(v) && 1 <= v <= 100) ==> message_command(
            WebPrefsMessage::BatteryThreshold { enabled, value },
        ) == Some(PrefsCommand::BatteryThreshold(Some(value.unwrap() as u8))),
        enabled && !(value matches Some(v) && 1 <= v <= 100) ==> message_command(
            WebPrefsMessage::BatteryThreshold { enabled, value },
        ) == Some(PrefsCommand::BatteryThreshold(Some(20u8))),
{
}

} // verus!
