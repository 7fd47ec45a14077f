use openlid::clock::{Moment, Span};
use openlid::recovery::{
    approval_recheck_delays, post_register_action, recovery_action, should_register_at_startup,
    registration_failure_message, should_surface, surface_cooldown, ApprovalFollowUp,
    ApprovalNotice, HelperRecoverySurface, HelperServiceStatus, RecoveryAction,
    RegistrationFailure,
};

#[test]
fn registers_when_not_registered() {
    assert_eq!(
        recovery_action(HelperServiceStatus::NotRegistered, true),
        RecoveryAction::Register
    );
    assert_eq!(
        recovery_action(HelperServiceStatus::Unknown(9), false),
        RecoveryAction::Register
    );
}

#[test]
fn reconnects_when_enabled_regardless_of_surface() {
    assert_eq!(recovery_action(HelperServiceStatus::Enabled, true), RecoveryAction::Reconnect);
    assert_eq!(recovery_action(HelperServiceStatus::Enabled, false), RecoveryAction::Reconnect);
}

#[test]
fn notifies_for_approval_only_when_surfacing() {
    assert_eq!(
        recovery_action(HelperServiceStatus::RequiresApproval, true),
        RecoveryAction::NotifyApproval
    );
    assert_eq!(
        recovery_action(HelperServiceStatus::RequiresApproval, false),
        RecoveryAction::Nothing
    );
}

#[test]
fn registers_when_not_found() {
    assert_eq!(recovery_action(HelperServiceStatus::NotFound, true), RecoveryAction::Register);
    assert_eq!(recovery_action(HelperServiceStatus::NotFound, false), RecoveryAction::Register);
}

#[test]
fn post_register_failure_routes_eperm_to_approval() {
    assert_eq!(
        post_register_action(HelperServiceStatus::RequiresApproval, true),
        RecoveryAction::NotifyApproval
    );
}

#[test]
fn post_register_failure_genuine_misinstall_surfaces_not_found() {
    assert_eq!(
        post_register_action(HelperServiceStatus::NotFound, true),
        RecoveryAction::NotifyNotFound
    );
    assert_eq!(
        post_register_action(HelperServiceStatus::NotRegistered, true),
        RecoveryAction::NotifyNotFound
    );
}

#[test]
fn post_register_reconnects_if_somehow_enabled() {
    assert_eq!(
        post_register_action(HelperServiceStatus::Enabled, true),
        RecoveryAction::Reconnect
    );
}

#[test]
fn post_register_never_surfaces_on_allow_path() {
    assert_eq!(
        post_register_action(HelperServiceStatus::RequiresApproval, false),
        RecoveryAction::Nothing
    );
    assert_eq!(post_register_action(HelperServiceStatus::NotFound, false), RecoveryAction::Nothing);
}

fn now() -> Moment {
    Moment::from_secs(10_000)
}

#[test]
fn surfaces_when_never_surfaced_before() {
    assert!(should_surface(now(), None, Span::from_secs(60)));
}

#[test]
fn suppresses_surface_within_cooldown() {
    let last = Moment::from_secs(10_000 - 10);
    assert!(!should_surface(now(), Some(last), Span::from_secs(60)));
}

#[test]
fn surfaces_again_past_cooldown() {
    let last = Moment::from_secs(10_000 - 120);
    assert!(should_surface(now(), Some(last), Span::from_secs(60)));
}

#[test]
fn surfaces_exactly_at_the_cooldown() {
    let last = Moment::from_secs(10_000 - 60);
    assert!(should_surface(now(), Some(last), Span::from_secs(60)));
}

#[test]
fn approval_recheck_schedule_is_bounded_and_increasing() {
    let delays = approval_recheck_delays();
    assert_eq!(delays.len(), 5);
    assert_eq!(delays.first(), Some(&Span::from_secs(5)));
    assert_eq!(delays.last(), Some(&Span::from_secs(120)));
    assert!(
        delays.windows(2).all(|w| w[0].is_shorter_than(&w[1])),
        "delays must be strictly increasing (bounded, no tight loop)"
    );
}

#[test]
fn from_raw_maps_each_code() {
    assert_eq!(HelperServiceStatus::from_raw(0), HelperServiceStatus::NotRegistered);
    assert_eq!(HelperServiceStatus::from_raw(1), HelperServiceStatus::Enabled);
    assert_eq!(HelperServiceStatus::from_raw(2), HelperServiceStatus::RequiresApproval);
    assert_eq!(HelperServiceStatus::from_raw(3), HelperServiceStatus::NotFound);
    assert_eq!(HelperServiceStatus::from_raw(-4), HelperServiceStatus::Unknown(-4));
}

#[test]
fn startup_registers_only_an_unregistered_or_unknown_service() {
    assert!(should_register_at_startup(&Ok(HelperServiceStatus::NotRegistered)));
    assert!(should_register_at_startup(&Ok(HelperServiceStatus::Unknown(7))));
    assert!(!should_register_at_startup(&Ok(HelperServiceStatus::Enabled)));
    assert!(!should_register_at_startup(&Ok(HelperServiceStatus::RequiresApproval)));
    assert!(!should_register_at_startup(&Ok(HelperServiceStatus::NotFound)));
    assert!(!should_register_at_startup(&Err("status failed".to_string())));
}

#[test]
fn one_approval_notice_per_episode() {
    let mut s = HelperRecoverySurface::new();
    let first = s.notify_approval_needed(now(), false);
    assert!(matches!(first, ApprovalNotice::PostBanner));
    let second = s.notify_approval_needed(Moment::from_secs(10_010), false);
    assert!(matches!(second, ApprovalNotice::Suppressed));
    s.mark_healthy();
    let third = s.notify_approval_needed(Moment::from_secs(10_020), false);
    assert!(matches!(third, ApprovalNotice::PostBanner));
}

#[test]
fn approval_with_notifications_denied_opens_settings() {
    let mut s = HelperRecoverySurface::new();
    let n = s.notify_approval_needed(now(), true);
    assert!(matches!(n, ApprovalNotice::OpenSettings { .. }));
}

#[test]
fn not_found_notice_respects_the_cooldown() {
    let mut s = HelperRecoverySurface::new();
    assert!(s.notify_not_found(now()));
    assert!(!s.notify_not_found(Moment::from_secs(10_000 + 299)));
    assert!(s.notify_not_found(Moment::from_secs(10_000 + 300)));
    assert_eq!(surface_cooldown(), Span::from_secs(300));
}

#[test]
fn approval_follow_up_rechecks_five_times_then_stops() {
    let mut surface = HelperRecoverySurface::new();
    assert_eq!(surface.start_approval_follow_up(), None);
    surface.set_reconcile_callback();
    let mut f = surface.start_approval_follow_up().unwrap();
    let mut offsets = Vec::new();
    let mut total = 0u64;
    while let Some(wait) = f.next_wait() {
        total += wait.secs;
        offsets.push(total);
    }
    assert_eq!(offsets, vec![5, 20, 50, 110, 230]);
    assert_eq!(f, ApprovalFollowUp { rechecks_done: 5 });
    assert_eq!(f.next_wait(), None);
}

#[test]
fn login_item_failure_messages() {
    assert_eq!(
        registration_failure_message(true, &RegistrationFailure::NoErrorInfo),
        "SMAppService register returned NO with no error info"
    );
    assert_eq!(
        registration_failure_message(false, &RegistrationFailure::Described("denied".to_string())),
        "SMAppService unregister failed: denied"
    );
    assert_eq!(
        registration_failure_message(true, &RegistrationFailure::Unreadable),
        "SMAppService failed: unknown"
    );
}
