use openlid::clock::{ClockTime, LocalDateTime, Moment, Span};
use openlid::days::{DaysOfWeek, Weekday};
use openlid::mode::{LidState, Modifiers, PowerSource, Schedule};
use openlid::state::{
    default_reachable, in_transit_auto_disable_decision, should_auto_disable_in_transit,
    should_prevent_sleep, AppState, InTransitAutoDisableDecision,
};

/// 2026-05-11 12:00 local time (a Monday), shifted by `secs`.
fn at(secs: i64) -> LocalDateTime {
    let base: i64 = 1_778_500_800;
    let day_secs = 12 * 3600 + secs;
    LocalDateTime {
        timestamp: base + secs,
        nanos: 0,
        weekday: Weekday::Mon,
        time: ClockTime { secs: day_secs as u32, nanos: 0 },
    }
}

fn t() -> LocalDateTime {
    at(0)
}

fn base() -> AppState {
    AppState {
        enabled: true,
        modifiers: Modifiers::default(),
        until: None,
        lid: LidState::Closed,
        power: PowerSource::Ac,
        network_reachable: true,
        network_unreachable_since: None,
    }
}

fn hm(h: u32, m: u32) -> ClockTime {
    ClockTime::from_hms(h, m, 0).unwrap()
}

#[test]
fn disabled_never_prevents() {
    let mut s = base();
    s.enabled = false;
    assert!(!should_prevent_sleep(&s, &t()));
}

#[test]
fn enabled_indefinite_prevents_regardless_of_lid() {
    let mut s = base();
    s.lid = LidState::Open;
    assert!(should_prevent_sleep(&s, &t()));
}

#[test]
fn enabled_with_timer_in_future_prevents() {
    let mut s = base();
    s.until = Some(at(2 * 3600));
    assert!(should_prevent_sleep(&s, &t()));
}

#[test]
fn enabled_with_timer_in_past_does_not_prevent() {
    let mut s = base();
    s.until = Some(at(-3600));
    assert!(!should_prevent_sleep(&s, &t()));
}

#[test]
fn enabled_with_timer_at_exact_expiry_does_not_prevent() {
    let mut s = base();
    s.until = Some(t());
    assert!(!should_prevent_sleep(&s, &t()));
}

#[test]
fn only_on_ac_blocks_when_on_battery() {
    let mut s = base();
    s.modifiers.only_on_ac = true;
    s.power = PowerSource::Battery { percent: 80 };
    assert!(!should_prevent_sleep(&s, &t()));
}

#[test]
fn only_on_ac_allows_when_on_ac() {
    let mut s = base();
    s.modifiers.only_on_ac = true;
    assert!(should_prevent_sleep(&s, &t()));
}

#[test]
fn min_battery_blocks_below_threshold() {
    let mut s = base();
    s.modifiers.min_battery = Some(50);
    s.power = PowerSource::Battery { percent: 30 };
    assert!(!should_prevent_sleep(&s, &t()));
}

#[test]
fn min_battery_allows_above_threshold() {
    let mut s = base();
    s.modifiers.min_battery = Some(50);
    s.power = PowerSource::Battery { percent: 80 };
    assert!(should_prevent_sleep(&s, &t()));
}

#[test]
fn min_battery_does_not_apply_on_ac() {
    let mut s = base();
    s.modifiers.min_battery = Some(50);
    assert!(should_prevent_sleep(&s, &t()));
}

#[test]
fn min_battery_at_the_threshold_allows() {
    let mut s = base();
    s.modifiers.min_battery = Some(50);
    s.power = PowerSource::Battery { percent: 50 };
    assert!(should_prevent_sleep(&s, &t()));
}

#[test]
fn schedule_blocks_outside_window() {
    let mut s = base();
    s.modifiers.schedule = Some(Schedule { days: DaysOfWeek::all(), start: hm(9, 0), end: hm(18, 0) });
    let outside = at(8 * 3600);
    assert!(!should_prevent_sleep(&s, &outside));
}

#[test]
fn schedule_allows_inside_window() {
    let mut s = base();
    s.modifiers.schedule = Some(Schedule { days: DaysOfWeek::all(), start: hm(9, 0), end: hm(18, 0) });
    assert!(should_prevent_sleep(&s, &t()));
}

#[test]
fn default_app_state_is_off_with_openlid_on_ac() {
    let s = AppState::default();
    assert!(!s.enabled);
    assert_eq!(s.modifiers, Modifiers::default());
    assert!(s.until.is_none());
    assert_eq!(s.lid, LidState::Open);
    assert_eq!(s.power, PowerSource::Ac);
    assert!(s.network_reachable, "default must be reachable: optimistic");
    assert!(s.network_unreachable_since.is_none());
    assert!(!should_prevent_sleep(&s, &t()));
    assert!(default_reachable());
}

fn now() -> Moment {
    Moment::from_secs(100_000)
}

fn ago(secs: u64) -> Moment {
    Moment::from_secs(100_000 - secs)
}

fn in_transit_base() -> AppState {
    AppState {
        enabled: true,
        modifiers: Modifiers::default(),
        until: None,
        lid: LidState::Closed,
        power: PowerSource::Battery { percent: 50 },
        network_reachable: false,
        network_unreachable_since: Some(ago(300)),
    }
}

#[test]
fn in_transit_fires_when_all_guards_pass() {
    let s = in_transit_base();
    assert!(should_auto_disable_in_transit(&s, false, false, Span::from_secs(120), now()));
}

#[test]
fn in_transit_skips_when_disabled() {
    let mut s = in_transit_base();
    s.enabled = false;
    assert!(!should_auto_disable_in_transit(&s, false, false, Span::from_secs(120), now()));
}

#[test]
fn in_transit_skips_when_lid_open() {
    let mut s = in_transit_base();
    s.lid = LidState::Open;
    assert!(!should_auto_disable_in_transit(&s, false, false, Span::from_secs(120), now()));
}

#[test]
fn in_transit_skips_when_on_ac() {
    let mut s = in_transit_base();
    s.power = PowerSource::Ac;
    assert!(!should_auto_disable_in_transit(&s, false, false, Span::from_secs(120), now()));
}

#[test]
fn in_transit_skips_when_external_display_present() {
    let s = in_transit_base();
    assert!(!should_auto_disable_in_transit(&s, true, false, Span::from_secs(120), now()));
}

#[test]
fn in_transit_skips_when_network_reachable() {
    let mut s = in_transit_base();
    s.network_reachable = true;
    s.network_unreachable_since = None;
    assert!(!should_auto_disable_in_transit(&s, false, false, Span::from_secs(120), now()));
}

#[test]
fn in_transit_skips_when_duration_under_threshold() {
    let s = AppState { network_unreachable_since: Some(ago(30)), ..in_transit_base() };
    assert!(!should_auto_disable_in_transit(&s, false, false, Span::from_secs(120), now()));
}

#[test]
fn in_transit_fires_at_exact_threshold_boundary() {
    let s = AppState { network_unreachable_since: Some(ago(120)), ..in_transit_base() };
    assert!(should_auto_disable_in_transit(&s, false, false, Span::from_secs(120), now()));
}

#[test]
fn in_transit_defers_when_system_busy_at_timeout() {
    let s = AppState { network_unreachable_since: Some(ago(120)), ..in_transit_base() };
    assert_eq!(
        in_transit_auto_disable_decision(&s, false, true, Span::from_secs(120), now()),
        InTransitAutoDisableDecision::DeferBusy,
    );
}

#[test]
fn in_transit_skips_when_system_busy_before_timeout() {
    let s = AppState { network_unreachable_since: Some(ago(30)), ..in_transit_base() };
    assert_eq!(
        in_transit_auto_disable_decision(&s, false, true, Span::from_secs(120), now()),
        InTransitAutoDisableDecision::Skip,
    );
}

#[test]
fn in_transit_decision_fires_when_idle_and_all_guards_pass() {
    let s = AppState { network_unreachable_since: Some(ago(120)), ..in_transit_base() };
    assert_eq!(
        in_transit_auto_disable_decision(&s, false, false, Span::from_secs(120), now()),
        InTransitAutoDisableDecision::Fire,
    );
}

#[test]
fn in_transit_with_clock_before_the_loss_does_not_fire() {
    // A monotonic reading before the recorded loss counts as no time elapsed.
    let s = AppState { network_unreachable_since: Some(Moment::from_secs(200_000)), ..in_transit_base() };
    assert!(!should_auto_disable_in_transit(&s, false, false, Span::from_secs(120), now()));
}
