use std::cell::{Cell, RefCell};

use openlid::clock::Span;
use openlid::helper::{
    active_requirement, disable_sleep_flag, guard_launched_by_launchd, on_connection_closed,
    on_connection_opened, startup_steps, toggle_steps, ClientValidator, HelperImpl, IdleExit,
    MarkerStore, OwnershipMarker, Pmset, Shared, ToggleStep, DEV_REQUIREMENT, IDLE_EXIT_SECS,
    MARKER_PATH, PROD_REQUIREMENT,
};
use openlid::pmset::parse_sleep_disabled;

struct FakePmset {
    enabled: Cell<bool>,
    set_calls: RefCell<Vec<bool>>,
    fail_set: Cell<bool>,
    fail_read: Cell<bool>,
}

impl FakePmset {
    fn new() -> Self {
        FakePmset {
            enabled: Cell::new(false),
            set_calls: RefCell::new(Vec::new()),
            fail_set: Cell::new(false),
            fail_read: Cell::new(false),
        }
    }
}

impl Pmset for FakePmset {
    fn set_disable_sleep(&self, enabled: bool) -> Result<(), String> {
        if self.fail_set.get() {
            return Err("simulated pmset set_disable_sleep failure".to_string());
        }
        self.set_calls.borrow_mut().push(enabled);
        self.enabled.set(enabled);
        Ok(())
    }

    fn read_disable_sleep(&self) -> Result<bool, String> {
        if self.fail_read.get() {
            return Err("simulated pmset read_disable_sleep failure".to_string());
        }
        Ok(self.enabled.get())
    }
}

struct FakeMarker {
    present: Cell<bool>,
    fail_write: Cell<bool>,
}

impl FakeMarker {
    fn new() -> Self {
        FakeMarker { present: Cell::new(false), fail_write: Cell::new(false) }
    }
}

impl MarkerStore for FakeMarker {
    fn write(&self) -> Result<(), String> {
        if self.fail_write.get() {
            return Err("simulated marker write failure".to_string());
        }
        self.present.set(true);
        Ok(())
    }

    fn remove(&self) -> Result<(), String> {
        self.present.set(false);
        Ok(())
    }
}

fn make_impl() -> HelperImpl<FakePmset, FakeMarker> {
    HelperImpl {
        pmset: FakePmset::new(),
        marker: FakeMarker::new(),
        idle_exit: IdleExit::new(),
        validator: ClientValidator::new(r#"identifier "io.openlid.app""#),
    }
}

#[test]
fn fake_records_calls() {
    let p = FakePmset::new();
    p.set_disable_sleep(true).unwrap();
    p.set_disable_sleep(false).unwrap();
    assert_eq!(*p.set_calls.borrow(), vec![true, false]);
    assert!(!p.read_disable_sleep().unwrap());
}

#[test]
fn fake_can_simulate_set_failure() {
    let p = FakePmset::new();
    p.fail_set.set(true);
    assert!(p.set_disable_sleep(true).is_err());
    assert!(p.set_calls.borrow().is_empty());
    assert!(!p.enabled.get());
}

#[test]
fn fake_can_simulate_read_failure() {
    let p = FakePmset::new();
    p.fail_read.set(true);
    assert!(p.read_disable_sleep().is_err());
}

#[test]
fn set_sleep_prevention_true_writes_marker_then_disables_sleep() {
    let helper = make_impl();
    helper.handle_set_sleep_prevention(true).unwrap();
    assert!(helper.marker.present.get(), "marker should be written before pmset toggle");
    assert!(helper.pmset.enabled.get(), "pmset should be set to disablesleep=1");
    assert_eq!(*helper.pmset.set_calls.borrow(), vec![true]);
}

#[test]
fn set_sleep_prevention_false_reenables_sleep_then_removes_marker() {
    let helper = make_impl();
    helper.handle_set_sleep_prevention(true).unwrap();
    assert!(helper.marker.present.get());
    helper.handle_set_sleep_prevention(false).unwrap();
    assert!(!helper.marker.present.get(), "marker should be removed after re-enabling sleep");
    assert!(!helper.pmset.enabled.get());
    assert_eq!(*helper.pmset.set_calls.borrow(), vec![true, false]);
}

#[test]
fn get_status_reflects_pmset_state() {
    let helper = make_impl();
    assert!(!helper.handle_get_status().unwrap());
    helper.handle_set_sleep_prevention(true).unwrap();
    assert!(helper.handle_get_status().unwrap());
}

#[test]
fn set_true_returns_err_when_pmset_fails_and_keeps_marker() {
    let helper = make_impl();
    helper.pmset.fail_set.set(true);
    let err = helper.handle_set_sleep_prevention(true).unwrap_err();
    assert!(err.contains("pmset set_disable_sleep failure"), "unexpected error: {err}");
    assert!(helper.marker.present.get(), "marker must remain after partial failure");
    assert!(helper.pmset.set_calls.borrow().is_empty());
}

#[test]
fn set_false_returns_err_when_pmset_fails_and_keeps_marker() {
    let helper = make_impl();
    helper.handle_set_sleep_prevention(true).unwrap();
    assert!(helper.marker.present.get());
    assert!(helper.pmset.enabled.get());
    helper.pmset.fail_set.set(true);
    let err = helper.handle_set_sleep_prevention(false).unwrap_err();
    assert!(err.contains("pmset set_disable_sleep failure"));
    assert!(helper.marker.present.get(), "marker must remain when re-enable fails");
    assert!(helper.pmset.enabled.get(), "pmset state should still report disabled-sleep");
}

#[test]
fn set_true_returns_err_when_marker_write_fails_and_pmset_not_called() {
    let helper = make_impl();
    helper.marker.fail_write.set(true);
    let _ = helper
        .handle_set_sleep_prevention(true)
        .expect_err("marker.write should fail");
    assert!(helper.pmset.set_calls.borrow().is_empty());
    assert!(!helper.pmset.enabled.get());
}

#[test]
fn toggle_steps_order_marker_around_the_power_setting() {
    assert_eq!(
        toggle_steps(true),
        vec![ToggleStep::WriteMarker, ToggleStep::SetDisableSleep(true)]
    );
    assert_eq!(
        toggle_steps(false),
        vec![ToggleStep::SetDisableSleep(false), ToggleStep::RemoveMarker]
    );
}

#[test]
fn startup_restores_sleep_only_when_a_marker_was_left() {
    assert_eq!(startup_steps(true), toggle_steps(false));
    assert!(startup_steps(false).is_empty());
}

fn make_shared(active: usize) -> Shared {
    Shared::new(active, IdleExit::new())
}

#[test]
fn open_from_zero_disarms_idle_exit() {
    let mut shared = make_shared(0);
    shared.idle_exit.arm();
    assert!(shared.idle_exit.is_armed());
    on_connection_opened(&mut shared);
    assert_eq!(shared.active_connections, 1);
    assert!(!shared.idle_exit.is_armed(), "first connection should disarm idle_exit");
}

#[test]
fn open_while_active_does_not_touch_idle_exit() {
    let mut shared = make_shared(1);
    assert!(!shared.idle_exit.is_armed());
    on_connection_opened(&mut shared);
    assert_eq!(shared.active_connections, 2);
    assert!(!shared.idle_exit.is_armed(), "subsequent connections must not change idle_exit state");
}

#[test]
fn close_to_zero_arms_idle_exit() {
    let mut shared = make_shared(1);
    assert!(!shared.idle_exit.is_armed());
    let arm = on_connection_closed(&mut shared);
    assert_eq!(shared.active_connections, 0);
    assert!(shared.idle_exit.is_armed(), "last close should arm idle_exit");
    let arm = arm.expect("a sleeper must be started");
    assert!(shared.idle_exit.should_fire(arm.generation));
}

#[test]
fn close_while_still_active_does_not_arm() {
    let mut shared = make_shared(2);
    assert!(!shared.idle_exit.is_armed());
    let arm = on_connection_closed(&mut shared);
    assert_eq!(shared.active_connections, 1);
    assert!(!shared.idle_exit.is_armed(), "must not arm while still active");
    assert!(arm.is_none());
}

#[test]
fn close_below_zero_wraps_the_counter_but_still_arms() {
    let mut shared = make_shared(0);
    let arm = on_connection_closed(&mut shared);
    assert_eq!(shared.active_connections, usize::MAX);
    assert!(arm.is_some());
}

#[test]
fn fires_after_duration_if_not_disarmed() {
    let mut t = IdleExit::new();
    let arm = t.arm();
    assert!(t.should_fire(arm.generation));
}

#[test]
fn disarm_before_fire_prevents_firing() {
    let mut t = IdleExit::new();
    let arm = t.arm();
    t.disarm();
    assert!(!t.should_fire(arm.generation));
}

#[test]
fn arm_uses_production_duration() {
    let mut t = IdleExit::new();
    let arm = t.arm();
    assert_eq!(arm.delay, Span::from_secs(IDLE_EXIT_SECS));
    assert_eq!(IDLE_EXIT_SECS, 15);
    assert!(t.is_armed());
    t.disarm();
    assert!(!t.is_armed());
    assert!(!t.should_fire(arm.generation));
}

#[test]
fn rearm_supersedes_previous() {
    let mut t = IdleExit::new();
    let first = t.arm();
    let second = t.arm();
    assert!(t.should_fire(second.generation));
    assert!(!t.should_fire(first.generation), "first (superseded) timer fired anyway");
}

#[test]
fn generation_wraps_without_repeating_the_current_one() {
    let mut t = IdleExit { generation: u64::MAX, armed: false };
    let arm = t.arm();
    assert_eq!(arm.generation, 0);
    assert!(!t.should_fire(u64::MAX));
}

#[test]
fn marker_paths() {
    assert_eq!(OwnershipMarker::new().path, MARKER_PATH);
    assert_eq!(OwnershipMarker::at("/tmp/x/marker.flag").path, "/tmp/x/marker.flag");
    assert!(!OwnershipMarker::at("/nonexistent/openlid/marker.flag").is_present());
}

#[test]
fn validator_with_invalid_token_rejects() {
    // The code-signing check for an all-zero audit token fails (the
    // kernel knows no such process); a failed check rejects the client.
    let v = ClientValidator::new(r#"identifier "io.openlid.app""#);
    let bogus_token_check: Result<bool, String> =
        Err("SecCodeCopyGuestWithAttributes failed: -67065".to_string());
    assert!(!v.allows(bogus_token_check));
}

#[test]
fn validator_allows_only_a_passed_check() {
    let v = ClientValidator::new(DEV_REQUIREMENT);
    assert_eq!(v.requirement_text, DEV_REQUIREMENT);
    assert!(v.allows(Ok(true)));
    assert!(!v.allows(Ok(false)));
}

#[test]
fn requirement_profiles() {
    assert_eq!(active_requirement(true), DEV_REQUIREMENT);
    assert_eq!(active_requirement(false), PROD_REQUIREMENT);
    assert!(PROD_REQUIREMENT.starts_with(DEV_REQUIREMENT));
}

#[test]
fn launchd_guard() {
    assert!(guard_launched_by_launchd(1, false).is_ok());
    assert_eq!(
        guard_launched_by_launchd(4242, false).unwrap_err(),
        "openlid-helper must be loaded by launchd, not invoked directly"
    );
    assert!(guard_launched_by_launchd(1, true).is_err());
}

#[test]
fn disable_sleep_flag_values() {
    assert_eq!(disable_sleep_flag(true), "1");
    assert_eq!(disable_sleep_flag(false), "0");
}

#[test]
fn parse_sleep_disabled_reads_the_sleep_disabled_line() {
    let out = "System-wide power settings:\n SleepDisabled\t\t1\nCurrently in use:\n standby 1\n";
    assert!(parse_sleep_disabled(out));
    let off = "System-wide power settings:\n SleepDisabled\t\t0\n";
    assert!(!parse_sleep_disabled(off));
    assert!(!parse_sleep_disabled("Currently in use:\n sleep 1\n"));
    assert!(!parse_sleep_disabled(""));
}

#[test]
fn parse_sleep_disabled_uses_the_first_matching_line_and_its_last_word() {
    assert!(!parse_sleep_disabled(" SleepDisabled 0\n SleepDisabled 1\n"));
    assert!(parse_sleep_disabled("SleepDisabled 0 1  \r\n"));
    assert!(!parse_sleep_disabled("SleepDisabled 11\n"));
    assert!(!parse_sleep_disabled("xSleepDisabled 1\n"));
    assert!(!parse_sleep_disabled("SleepDisabled1"));
}
