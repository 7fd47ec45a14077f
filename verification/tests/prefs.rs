use std::cell::RefCell;

use openlid::clock::{ClockTime, LocalDateTime};
use openlid::days::{DaysOfWeek, Weekday};
use openlid::ipc::{HelperStatus, Snapshot};
use openlid::mode::{LidState, Modifiers, PowerSource, Schedule};
use openlid::prefs::{
    apply_web_message, days_from_web, days_to_web, schedule_from_web, snapshot_to_web,
    web_message_command, PrefsActions, PrefsCommand, WebPrefsError, WebPrefsMessage,
    DEFAULT_BATTERY_PCT, DEFAULT_IN_TRANSIT_MINUTES,
};

#[derive(Default)]
struct RecordingActions {
    start_at_login: RefCell<Option<bool>>,
    battery_threshold: RefCell<Option<Option<u8>>>,
    schedule: RefCell<Option<Option<Schedule>>>,
    in_transit: RefCell<Option<Option<u32>>>,
}

impl PrefsActions for RecordingActions {
    fn set_start_at_login(&self, enabled: bool) {
        *self.start_at_login.borrow_mut() = Some(enabled);
    }

    fn set_activate_at_launch(&self, _enabled: bool) {}

    fn set_battery_threshold(&self, pct: Option<u8>) {
        *self.battery_threshold.borrow_mut() = Some(pct);
    }

    fn set_prevent_display_sleep(&self, _enabled: bool) {}

    fn set_schedule(&self, schedule: Option<Schedule>) {
        *self.schedule.borrow_mut() = Some(schedule);
    }

    fn set_in_transit_timeout(&self, minutes: Option<u32>) {
        *self.in_transit.borrow_mut() = Some(minutes);
    }
}

fn hm(h: u32, m: u32) -> ClockTime {
    ClockTime::from_hms(h, m, 0).unwrap()
}

#[test]
fn apply_web_message_routes_boolean_preference_to_actions() {
    let actions = RecordingActions::default();
    apply_web_message(&actions, WebPrefsMessage::StartAtLogin { enabled: true }).unwrap();
    assert_eq!(*actions.start_at_login.borrow(), Some(true));
}

#[test]
fn apply_web_message_clamps_enabled_battery_threshold() {
    let actions = RecordingActions::default();
    apply_web_message(
        &actions,
        WebPrefsMessage::BatteryThreshold { enabled: true, value: Some(125) },
    )
    .unwrap();
    assert_eq!(*actions.battery_threshold.borrow(), Some(Some(DEFAULT_BATTERY_PCT)));
}

#[test]
fn apply_web_message_disabled_schedule_clears_schedule() {
    let actions = RecordingActions::default();
    apply_web_message(
        &actions,
        WebPrefsMessage::Schedule { enabled: false, start: None, end: None, days: None },
    )
    .unwrap();
    assert_eq!(*actions.schedule.borrow(), Some(None));
}

#[test]
fn apply_web_message_enabled_schedule_parses_days_and_times() {
    let actions = RecordingActions::default();
    apply_web_message(
        &actions,
        WebPrefsMessage::Schedule {
            enabled: true,
            start: Some("09:30".to_string()),
            end: Some("17:45".to_string()),
            days: Some(vec!["mon".to_string(), "wed".to_string(), "fri".to_string()]),
        },
    )
    .unwrap();
    let schedule = (*actions.schedule.borrow()).unwrap().unwrap();
    assert_eq!(schedule.start, hm(9, 30));
    assert_eq!(schedule.end, hm(17, 45));
    assert!(schedule.days.has_day(Weekday::Mon));
    assert!(schedule.days.has_day(Weekday::Wed));
    assert!(schedule.days.has_day(Weekday::Fri));
    assert!(!schedule.days.has_day(Weekday::Tue));
}

#[test]
fn battery_threshold_keeps_values_in_range_and_switches_off() {
    for (value, want) in [(Some(1u16), 1u8), (Some(100), 100), (Some(0), 20), (None, 20)] {
        let c = web_message_command(WebPrefsMessage::BatteryThreshold { enabled: true, value })
            .unwrap();
        assert_eq!(c, PrefsCommand::BatteryThreshold(Some(want)));
    }
    let c = web_message_command(WebPrefsMessage::BatteryThreshold { enabled: false, value: Some(50) })
        .unwrap();
    assert_eq!(c, PrefsCommand::BatteryThreshold(None));
}

#[test]
fn in_transit_timeout_is_clamped_to_its_range() {
    let actions = RecordingActions::default();
    apply_web_message(&actions, WebPrefsMessage::InTransitTimeout { enabled: true, value: Some(121) })
        .unwrap();
    assert_eq!(*actions.in_transit.borrow(), Some(Some(DEFAULT_IN_TRANSIT_MINUTES)));
    apply_web_message(&actions, WebPrefsMessage::InTransitTimeout { enabled: true, value: Some(120) })
        .unwrap();
    assert_eq!(*actions.in_transit.borrow(), Some(Some(120)));
    apply_web_message(&actions, WebPrefsMessage::InTransitTimeout { enabled: false, value: None })
        .unwrap();
    assert_eq!(*actions.in_transit.borrow(), Some(None));
}

#[test]
fn ready_changes_nothing() {
    let actions = RecordingActions::default();
    assert_eq!(apply_web_message(&actions, WebPrefsMessage::Ready).unwrap(), PrefsCommand::Nothing);
    assert!(actions.start_at_login.borrow().is_none());
}

#[test]
fn schedule_defaults_and_widening() {
    let s = schedule_from_web(None, None, None).unwrap();
    assert_eq!(s.start, hm(9, 0));
    assert_eq!(s.end, hm(17, 0));
    assert_eq!(s.days, DaysOfWeek::all());
    let same = "10:00".to_string();
    let s = schedule_from_web(Some(&same), Some(&same), None).unwrap();
    assert_eq!(s.end, hm(10, 1));
    let late = "23:59".to_string();
    let s = schedule_from_web(Some(&late), Some(&late), None).unwrap();
    assert_eq!(s.end, hm(0, 0));
}

#[test]
fn schedule_rejects_bad_times_and_days() {
    let bad = "9am".to_string();
    assert!(matches!(
        schedule_from_web(Some(&bad), None, None),
        Err(WebPrefsError::BadTime { .. })
    ));
    let days = vec!["mon".to_string(), "Tue".to_string()];
    match schedule_from_web(None, None, Some(&days)) {
        Err(WebPrefsError::UnknownDay(d)) => assert_eq!(d, "Tue"),
        other => panic!("expected UnknownDay, got {other:?}"),
    }
    // A message that cannot be read changes nothing.
    let actions = RecordingActions::default();
    let msg = WebPrefsMessage::Schedule { enabled: true, start: Some(bad), end: None, days: None };
    assert!(apply_web_message(&actions, msg).is_err());
    assert!(actions.schedule.borrow().is_none());
}

#[test]
fn empty_day_selection_means_every_day() {
    assert_eq!(days_from_web(Some(&Vec::new())).unwrap(), DaysOfWeek::all());
    assert_eq!(days_from_web(None).unwrap(), DaysOfWeek::all());
}

#[test]
fn days_to_web_lists_lower_case_names_in_order() {
    let mut d = DaysOfWeek::empty();
    d.insert(Weekday::Sun);
    d.insert(Weekday::Tue);
    assert_eq!(days_to_web(d), vec!["tue", "sun"]);
}

fn snap() -> Snapshot {
    Snapshot {
        preventing_sleep_now: false,
        enabled: false,
        until: None::<LocalDateTime>,
        modifiers: Modifiers::default(),
        lid: LidState::Open,
        power: PowerSource::Ac,
        helper: HelperStatus::Running,
        start_at_login: true,
        activate_at_launch: false,
        default_duration_minutes: None,
        battery_threshold_pct: None,
        prevent_display_sleep: true,
        in_transit_timeout_minutes: Some(15),
    }
}

#[test]
fn snapshot_to_web_fills_defaults() {
    let w = snapshot_to_web(&snap());
    assert!(w.start_at_login);
    assert!(!w.battery_threshold.enabled);
    assert_eq!(w.battery_threshold.value, 20);
    assert!(w.in_transit_timeout.enabled);
    assert_eq!(w.in_transit_timeout.value, 15);
    assert!(!w.schedule.enabled);
    assert_eq!(w.schedule.start, "09:00");
    assert_eq!(w.schedule.end, "17:00");
    assert_eq!(w.schedule.days.len(), 7);
    assert_eq!(w.schedule.days[0], "mon");
}

#[test]
fn snapshot_to_web_shows_the_schedule() {
    let mut s = snap();
    s.battery_threshold_pct = Some(35);
    s.modifiers.schedule = Some(Schedule { days: DaysOfWeek::only(Weekday::Sat), start: hm(7, 5), end: hm(22, 40) });
    let w = snapshot_to_web(&s);
    assert!(w.battery_threshold.enabled);
    assert_eq!(w.battery_threshold.value, 35);
    assert!(w.schedule.enabled);
    assert_eq!(w.schedule.start, "07:05");
    assert_eq!(w.schedule.end, "22:40");
    assert_eq!(w.schedule.days, vec!["sat"]);
}
