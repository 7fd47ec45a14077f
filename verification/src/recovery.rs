//! Helper-recovery decisions: what to do about an unreachable privileged
//! helper given its service registration status, and how often the user may
//! be bothered about it.

use vstd::prelude::*;
use crate::clock::{Moment, Span};
use crate::text::{push_lit, string_of};

verus! {

/// Status of the helper's service registration. Raw codes: 0 not
/// registered, 1 enabled, 2 requires approval, 3 not found; any other code
/// is carried as `Unknown`.
#[derive(Debug, Clone, Copy, PartialEq, Eq, Structural)]
pub enum HelperServiceStatus {
    NotRegistered,
    RequiresApproval,
    Enabled,
    NotFound,
    Unknown(i64),
}

/// The status a raw service code stands for.
pub open spec fn status_of_code(raw: i64) -> HelperServiceStatus {
    if raw == 0 {
        HelperServiceStatus::NotRegistered
    } else if raw == 1 {
        HelperServiceStatus::Enabled
    } else if raw == 2 {
        HelperServiceStatus::RequiresApproval
    } else if raw == 3 {
        HelperServiceStatus::NotFound
    } else {
        HelperServiceStatus::Unknown(raw)
    }
}

impl HelperServiceStatus {
    /// Map a raw service status code onto a status.
    pub fn from_raw(raw: i64) -> (r: HelperServiceStatus)
        ensures
            r == status_of_code(raw),
    {
        match raw {
            0 => HelperServiceStatus::NotRegistered,
            1 => HelperServiceStatus::Enabled,
            2 => HelperServiceStatus::RequiresApproval,
            3 => HelperServiceStatus::NotFound,
            other => HelperServiceStatus::Unknown(other),
        }
    }
}

/// What to do about an unreachable helper.
#[derive(Debug, Clone, Copy, PartialEq, Eq, Structural)]
pub enum RecoveryAction {
    /// (Re-)register the daemon. Idempotent.
    Register,
    /// Post the "needs approval" banner and start the approval follow-up.
    NotifyApproval,
    /// Post the "move the app to Applications" banner.
    NotifyNotFound,
    /// Rebuild the connection: the daemon is enabled but the client latched
    /// invalid.
    Reconnect,
    /// Do nothing this cycle.
    Nothing,
}

/// The recovery action for `status`. `surface` is true on the
/// prevent-sleep path, where bothering the user is justified; only the
/// user-visible actions depend on it.
pub open spec fn recovery_plan(status: HelperServiceStatus, surface: bool) -> RecoveryAction {
    match status {
        HelperServiceStatus::NotRegistered | HelperServiceStatus::NotFound
        | HelperServiceStatus::Unknown(_) => RecoveryAction::Register,
        HelperServiceStatus::Enabled => RecoveryAction::Reconnect,
        HelperServiceStatus::RequiresApproval => if surface {
            RecoveryAction::NotifyApproval
        } else {
            RecoveryAction::Nothing
        },
    }
}

/// The action after a failed registration attempt, from the re-checked
/// status: never `Register` again; approval needed routes to the approval
/// banner; still not registered is a genuine misinstall.
pub open spec fn post_register_plan(status: HelperServiceStatus, surface: bool) -> RecoveryAction {
    match status {
        HelperServiceStatus::Enabled => RecoveryAction::Reconnect,
        HelperServiceStatus::RequiresApproval => if surface {
            RecoveryAction::NotifyApproval
        } else {
            RecoveryAction::Nothing
        },
        HelperServiceStatus::NotRegistered | HelperServiceStatus::NotFound
        | HelperServiceStatus::Unknown(_) => if surface {
            RecoveryAction::NotifyNotFound
        } else {
            RecoveryAction::Nothing
        },
    }
}

/// Map the live service status onto a recovery action.
pub fn recovery_action(status: HelperServiceStatus, surface: bool) -> (r: RecoveryAction)
    ensures
        r == recovery_plan(status, surface),
{
    match status {
        HelperServiceStatus::NotRegistered | HelperServiceStatus::NotFound
        | HelperServiceStatus::Unknown(_) => RecoveryAction::Register,
        HelperServiceStatus::Enabled => RecoveryAction::Reconnect,
        HelperServiceStatus::RequiresApproval => {
            if surface {
                RecoveryAction::NotifyApproval
            } else {
                RecoveryAction::Nothing
            }
        },
    }
}

/// Decide what to surface after a registration attempt failed.
pub fn post_register_action(status: HelperServiceStatus, surface: bool) -> (r: RecoveryAction)
    ensures
        r == post_register_plan(status, surface),
{
    match status {
        HelperServiceStatus::Enabled => RecoveryAction::Reconnect,
        HelperServiceStatus::RequiresApproval => {
            if surface {
                RecoveryAction::NotifyApproval
            } else {
                RecoveryAction::Nothing
            }
        },
        HelperServiceStatus::NotRegistered | HelperServiceStatus::NotFound
        | HelperServiceStatus::Unknown(_) => {
            if surface {
                RecoveryAction::NotifyNotFound
            } else {
                RecoveryAction::Nothing
            }
        },
    }
}

/// At start-up, the daemon is registered only when the service reports it
/// unregistered (or in a state it does not know); an enabled, pending or
/// missing service, or a failed status query, is left alone.
pub open spec fn registers_at_startup(status: Result<HelperServiceStatus, String>) -> bool {
    match status {
        Ok(HelperServiceStatus::NotRegistered) => true,
        Ok(HelperServiceStatus::Unknown(_)) => true,
        _ => false,
    }
}

/// Whether start-up should register the helper daemon, given the status
/// query's outcome.
pub fn should_register_at_startup(status: &Result<HelperServiceStatus, String>) -> (r: bool)
    ensures
        r == registers_at_startup(*status),
{
    match status {
        Ok(HelperServiceStatus::NotRegistered) => true,
        Ok(HelperServiceStatus::Unknown(_)) => true,
        _ => false,
    }
}

/// Surfacing is allowed when nothing was surfaced yet in this episode, or
/// the cooldown has elapsed since the last time.
pub open spec fn surface_allowed(now: Moment, last: Option<Moment>, cooldown: Span) -> bool {
    match last {
        None => true,
        Some(t) => crate::state::elapsed(t, now) >= cooldown.total(),
    }
}

/// Cooldown gate for user-visible surfacing.
pub fn should_surface(now: Moment, last: Option<Moment>, cooldown: Span) -> (r: bool)
    requires
        now.wf(),
        cooldown.wf(),
        last matches Some(t) ==> t.wf(),
    ensures
        r == surface_allowed(now, last, cooldown),
{
    match last {
        None => true,
        Some(t) => !now.duration_since(&t).is_shorter_than(&cooldown),
    }
}

/// The delays, in seconds, of the bounded recheck schedule run after System
/// Settings is opened: 5, 15, 30, 60 and 120.
pub open spec fn recheck_delay_secs() -> Seq<u64> {
    seq![5u64, 15u64, 30u64, 60u64, 120u64]
}

/// The bounded recheck schedule: five delays, strictly increasing, from
/// five seconds to two minutes.
pub fn approval_recheck_delays() -> (r: Vec<Span>)
    ensures
        r@.len() == 5,
        forall|i: int| 0 <= i < 5 ==> #[trigger] r@[i] == Span::from_secs_spec(recheck_delay_secs()[i]),
        forall|i: int, j: int| 0 <= i < j < 5 ==> r@[i].total() < r@[j].total(),
{
    let r = vec![
        Span::from_secs(5),
        Span::from_secs(15),
        Span::from_secs(30),
        Span::from_secs(60),
        Span::from_secs(120),
    ];
    r
}

/// Backstop interval between repeated banners within one unhealthy episode.
pub fn surface_cooldown() -> (r: Span)
    ensures
        r.wf(),
        r.total() == 300 * 1_000_000_000,
{
    Span::from_secs(300)
}

/// How a "needs approval" notice is surfaced.
#[derive(Debug, Clone, Copy, PartialEq, Eq, Structural)]
pub enum ApprovalNotice {
    /// Nothing: surfaced too recently.
    Suppressed,
    /// Notifications are denied: open System Settings directly, and start
    /// the approval follow-up when `follow_up`.
    OpenSettings { follow_up: bool },
    /// Post the banner.
    PostBanner,
}

/// Rate-limiting state for helper-recovery notices, shared by every path
/// that may surface one.
#[derive(Debug, Clone, Copy, PartialEq, Eq, Structural)]
pub struct HelperRecoverySurface {
    pub approval_last: Option<Moment>,
    pub not_found_last: Option<Moment>,
    pub has_reconcile_callback: bool,
}

impl HelperRecoverySurface {
    /// Well formed when the recorded moments are.
    pub open spec fn wf(self) -> bool {
        &&& self.approval_last matches Some(t) ==> t.wf()
        &&& self.not_found_last matches Some(t) ==> t.wf()
    }

    /// Nothing surfaced yet, no reconcile callback installed.
    pub fn new() -> (r: HelperRecoverySurface)
        ensures
            r.approval_last is None,
            r.not_found_last is None,
            !r.has_reconcile_callback,
            r.wf(),
    {
        HelperRecoverySurface { approval_last: None, not_found_last: None, has_reconcile_callback: false }
    }

    /// Record that the runtime's reconcile callback is installed.
    pub fn set_reconcile_callback(&mut self)
        ensures
            *final(self) == (HelperRecoverySurface { has_reconcile_callback: true, ..*old(self) }),
    {
        self.has_reconcile_callback = true;
    }

    /// The helper is reachable again: clear the cooldowns so a future
    /// unhealthy episode can surface afresh.
    pub fn mark_healthy(&mut self)
        ensures
            *final(self) == (HelperRecoverySurface {
                approval_last: None,
                not_found_last: None,
                ..*old(self)
            }),
    {
        self.approval_last = None;
        self.not_found_last = None;
    }

    /// Surface "helper needs approval", rate-limited. When notifications are
    /// denied, System Settings is opened directly instead of a banner.
    pub fn notify_approval_needed(&mut self, now: Moment, notifications_denied: bool) -> (r: ApprovalNotice)
        requires
            old(self).wf(),
            now.wf(),
        ensures
            final(self).wf(),
            !surface_allowed(now, old(self).approval_last, Span::from_secs_spec(300)) ==> r
                == ApprovalNotice::Suppressed && *final(self) == *old(self),
            surface_allowed(now, old(self).approval_last, Span::from_secs_spec(300)) ==> {
                &&& *final(self) == (HelperRecoverySurface { approval_last: Some(now), ..*old(self) })
                &&& r == if notifications_denied {
                    ApprovalNotice::OpenSettings { follow_up: old(self).has_reconcile_callback }
                } else {
                    ApprovalNotice::PostBanner
                }
            },
    {
        if !should_surface(now, self.approval_last, surface_cooldown()) {
            return ApprovalNotice::Suppressed;
        }
        self.approval_last = Some(now);
        if notifications_denied {
            ApprovalNotice::OpenSettings { follow_up: self.on_settings_opened() }
        } else {
            ApprovalNotice::PostBanner
        }
    }

    /// Surface "the app must be in Applications", rate-limited. Returns
    /// whether to post the banner.
    pub fn notify_not_found(&mut self, now: Moment) -> (r: bool)
        requires
            old(self).wf(),
            now.wf(),
        ensures
            final(self).wf(),
            r == surface_allowed(now, old(self).not_found_last, Span::from_secs_spec(300)),
            r ==> *final(self) == (HelperRecoverySurface { not_found_last: Some(now), ..*old(self) }),
            !r ==> *final(self) == *old(self),
    {
        if !should_surface(now, self.not_found_last, surface_cooldown()) {
            return false;
        }
        self.not_found_last = Some(now);
        true
    }

    /// The user is sent to the Login Items pane: the bounded follow-up is
    /// started only once the runtime's reconcile callback is installed.
    pub fn on_settings_opened(&self) -> (r: bool)
        ensures
            r == self.has_reconcile_callback,
    {
        self.has_reconcile_callback
    }
}

/// The bounded follow-up run after System Settings is opened: the number of
/// rechecks already made. It waits each delay of the recheck schedule in
/// turn, rechecking after each, and then stops for good.
#[derive(Debug, Clone, Copy, PartialEq, Eq, Structural)]
pub struct ApprovalFollowUp {
    pub rechecks_done: usize,
}

/// The wait before the recheck after `done` rechecks: the schedule's next
/// delay, or none once all five were made.
pub open spec fn follow_up_wait(done: int) -> Option<Span> {
    if 0 <= done < 5 {
        Some(Span::from_secs_spec(recheck_delay_secs()[done]))
    } else {
        None
    }
}

/// The seconds from the start of the follow-up to its `k`-th recheck: the
/// sum of the first `k` delays.
pub open spec fn recheck_offset_secs(k: nat) -> int
    decreases k,
{
    if k == 0 || k > 5 {
        0
    } else {
        recheck_offset_secs((k - 1) as nat) + recheck_delay_secs()[k - 1]
    }
}

impl HelperRecoverySurface {
    /// The user is sent to the Login Items pane: the bounded follow-up,
    /// with no recheck made yet, when the runtime's reconcile callback is
    /// installed; nothing is scheduled otherwise.
    pub fn start_approval_follow_up(&self) -> (r: Option<ApprovalFollowUp>)
        ensures
            r == if self.has_reconcile_callback {
                Some(ApprovalFollowUp { rechecks_done: 0 })
            } else {
                None::<ApprovalFollowUp>
            },
    {
        if self.on_settings_opened() {
            Some(ApprovalFollowUp { rechecks_done: 0 })
        } else {
            None
        }
    }
}

impl ApprovalFollowUp {
    /// How long to wait before the next recheck (after which the caller
    /// runs the reconcile callback once), or `None` when the follow-up is
    /// over; each wait counts one recheck.
    pub fn next_wait(&mut self) -> (r: Option<Span>)
        ensures
            r == follow_up_wait(old(self).rechecks_done as int),
            r is Some ==> final(self).rechecks_done == old(self).rechecks_done + 1,
            r is None ==> *final(self) == *old(self),
    {
        if self.rechecks_done < 5 {
            let delays = approval_recheck_delays();
            let d = delays[self.rechecks_done];
            self.rechecks_done = self.rechecks_done + 1;
            Some(d)
        } else {
            None
        }
    }
}

/// A follow-up started afresh makes exactly five rechecks, about 5, 20, 50,
/// 110 and 230 seconds after it starts, and never another: once five were
/// made, no wait is ever handed out again.
pub proof fn law_follow_up_makes_five_timed_rechecks(f: ApprovalFollowUp)
    ensures
        forall|k: int| 0 <= k < 5 <==> #[trigger] follow_up_wait(k) is Some,
        recheck_offset_secs(1) == 5,
        recheck_offset_secs(2) == 20,
        recheck_offset_secs(3) == 50,
        recheck_offset_secs(4) == 110,
        recheck_offset_secs(5) == 230,
        f.rechecks_done >= 5 ==> follow_up_wait(f.rechecks_done as int) is None,
{
    reveal_with_fuel(recheck_offset_secs, 6);
}

/// How a login-item registration request (`register`/`unregister` of the
/// application's service) reported failure.
#[derive(Debug, Clone, PartialEq, Eq)]
pub enum RegistrationFailure {
    /// It answered "no" and gave no error.
    NoErrorInfo,
    /// It gave an error with this description.
    Described(String),
    /// It gave an error that could not be read.
    Unreadable,
}

/// The name of a registration request.
pub open spec fn registration_op(register: bool) -> Seq<char> {
    if register {
        "register"@
    } else {
        "unregister"@
    }
}

/// The message for a failed login-item registration request.
pub open spec fn registration_failure_text(register: bool, f: RegistrationFailure) -> Seq<char> {
    match f {
        RegistrationFailure::NoErrorInfo => "SMAppService "@ + registration_op(register)
            + " returned NO with no error info"@,
        RegistrationFailure::Described(d) => "SMAppService "@ + registration_op(register)
            + " failed: "@ + d@,
        RegistrationFailure::Unreadable => "SMAppService failed: unknown"@,
    }
}

/// The message for a failed login-item registration request.
pub fn registration_failure_message(register: bool, failure: &RegistrationFailure) -> (r: String)
    ensures
        r@ == registration_failure_text(register, *failure),
{
    let mut out: Vec<char> = Vec::new();
    match failure {
        RegistrationFailure::Unreadable => {
            push_lit(&mut out, "SMAppService failed: unknown");
        },
        RegistrationFailure::NoErrorInfo => {
            push_lit(&mut out, "SMAppService ");
            push_lit(&mut out, if register { "register" } else { "unregister" });
            push_lit(&mut out, " returned NO with no error info");
        },
        RegistrationFailure::Described(d) => {
            push_lit(&mut out, "SMAppService ");
            push_lit(&mut out, if register { "register" } else { "unregister" });
            push_lit(&mut out, " failed: ");
            push_lit(&mut out, d.as_str());
        },
    }
    string_of(&out)
}

/// Within the cooldown after a notice, the next one is suppressed; after
/// the helper is marked healthy, the next one surfaces at once.
pub proof fn law_one_notice_per_episode(s: HelperRecoverySurface, first: Moment, next: Moment)
    requires
        first.wf(),
        next.wf(),
        next.total() >= first.total(),
        next.total() - first.total() < 300 * 1_000_000_000,
    ensures
        !surface_allowed(next, Some(first), Span::from_secs_spec(300)),
        surface_allowed(next, None, Span::from_secs_spec(300)),
{
}

/// `Register` and `Reconnect` do not depend on whether surfacing is
/// allowed, and without surfacing no banner is ever requested.
pub proof fn law_silent_path_never_notifies(status: HelperServiceStatus)
    ensures
        recovery_plan(status, false) != RecoveryAction::NotifyApproval,
        recovery_plan(status, false) != RecoveryAction::NotifyNotFound,
        post_register_plan(status, false) != RecoveryAction::NotifyApproval,
        post_register_plan(status, false) != RecoveryAction::NotifyNotFound,
        recovery_plan(status, true) == RecoveryAction::Register ==> recovery_plan(status, false)
            == RecoveryAction::Register,
        recovery_plan(status, true) == RecoveryAction::Reconnect ==> recovery_plan(status, false)
            == RecoveryAction::Reconnect,
        post_register_plan(status, true) != RecoveryAction::Register,
{
}

} // verus!
