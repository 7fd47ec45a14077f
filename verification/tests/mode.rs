use openlid::clock::{ClockTime, LocalDateTime};
use openlid::days::{DaysOfWeek, Weekday};
use openlid::mode::{LidState, Modifiers, PowerSource, Schedule};

const DAYS: [Weekday; 7] = [
    Weekday::Mon,
    Weekday::Tue,
    Weekday::Wed,
    Weekday::Thu,
    Weekday::Fri,
    Weekday::Sat,
    Weekday::Sun,
];

/// Local time on 2026-05-`day` (2026-05-11 is a Monday).
fn local(day: u32, h: u32, m: u32) -> LocalDateTime {
    let weekday = DAYS[((day + 7 - 11) % 7) as usize];
    let secs = h * 3600 + m * 60;
    LocalDateTime {
        timestamp: 1_778_457_600 + (day as i64 - 11) * 86_400 + secs as i64,
        nanos: 0,
        weekday,
        time: ClockTime { secs, nanos: 0 },
    }
}

fn hms(h: u32, m: u32, s: u32) -> ClockTime {
    ClockTime::from_hms(h, m, s).unwrap()
}

fn weekdays() -> DaysOfWeek {
    let mut d = DaysOfWeek::empty();
    for w in &DAYS[..5] {
        d.insert(*w);
    }
    d
}

#[test]
fn modifiers_default_is_all_off() {
    let m = Modifiers::default();
    assert!(!m.only_on_ac);
    assert!(m.min_battery.is_none());
    assert!(m.schedule.is_none());
}

#[test]
fn lid_and_power_defaults() {
    assert_eq!(LidState::default(), LidState::Open);
    assert_eq!(PowerSource::default(), PowerSource::Ac);
}

#[test]
fn schedule_same_day_inside_window_active() {
    let sched = Schedule { days: DaysOfWeek::all(), start: hms(9, 0, 0), end: hms(18, 0, 0) };
    assert!(sched.contains(&local(11, 12, 0)));
}

#[test]
fn schedule_same_day_outside_window_inactive() {
    let sched = Schedule { days: DaysOfWeek::all(), start: hms(9, 0, 0), end: hms(18, 0, 0) };
    assert!(!sched.contains(&local(11, 20, 0)));
}

#[test]
fn schedule_day_not_in_flags_inactive() {
    let sched = Schedule { days: weekdays(), start: hms(9, 0, 0), end: hms(18, 0, 0) };
    assert!(!sched.contains(&local(9, 12, 0)));
}

#[test]
fn schedule_crosses_midnight_late_evening_active() {
    let sched = Schedule { days: DaysOfWeek::only(Weekday::Mon), start: hms(22, 0, 0), end: hms(2, 0, 0) };
    assert!(sched.contains(&local(11, 23, 30)));
}

#[test]
fn schedule_crosses_midnight_early_morning_uses_yesterday_flag() {
    let sched = Schedule { days: DaysOfWeek::only(Weekday::Mon), start: hms(22, 0, 0), end: hms(2, 0, 0) };
    assert!(sched.contains(&local(12, 1, 0)));
    // Monday 01:00 belongs to Sunday's window, which is not set.
    assert!(!sched.contains(&local(11, 1, 0)));
}

#[test]
fn schedule_at_exact_end_inactive() {
    let sched = Schedule { days: DaysOfWeek::all(), start: hms(9, 0, 0), end: hms(18, 0, 0) };
    assert!(!sched.contains(&local(11, 18, 0)));
    assert!(sched.contains(&local(11, 9, 0)));
}

#[test]
fn days_of_week_default_is_empty() {
    assert_eq!(DaysOfWeek::default(), DaysOfWeek::empty());
    assert!(!DaysOfWeek::default().contains(DaysOfWeek::only(Weekday::Mon)));
}

#[test]
fn schedule_contains_dispatches_all_weekdays_today() {
    let sched = Schedule { days: DaysOfWeek::all(), start: hms(0, 0, 0), end: hms(23, 59, 59) };
    for day in 11..=17u32 {
        assert!(
            sched.contains(&local(day, 12, 0)),
            "noon on 2026-05-{day} should be inside an all-days, all-day window",
        );
    }
}

#[test]
fn schedule_cross_midnight_dispatches_all_yesterday_arms() {
    let sched = Schedule { days: DaysOfWeek::all(), start: hms(22, 0, 0), end: hms(2, 0, 0) };
    for day in 12..=18u32 {
        assert!(
            sched.contains(&local(day, 1, 0)),
            "01:00 on 2026-05-{day} should be inside a 22:00-02:00 window with all days set",
        );
    }
}

#[test]
fn days_from_names_reads_the_written_form() {
    let names = vec!["Mon".to_string(), "Wed".to_string(), "Fri".to_string()];
    let d = openlid::days::days_from_name_list(&names).unwrap();
    assert!(d.has_day(Weekday::Mon) && d.has_day(Weekday::Wed) && d.has_day(Weekday::Fri));
    assert!(!d.has_day(Weekday::Tue));
    let back: Vec<String> = d.names_list().iter().map(|v| v.iter().collect()).collect();
    assert_eq!(back, vec!["Mon", "Wed", "Fri"]);
}

#[test]
fn days_from_names_rejects_unknown_day() {
    let names = vec!["Funday".to_string()];
    let err = openlid::days::days_from_name_list(&names).unwrap_err();
    assert_eq!(err.iter().collect::<String>(), "Funday");
}
