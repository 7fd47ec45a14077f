//! The decision core of the menu-bar role: it owns the live state and the
//! configuration, and turns each event (a toggle, a lid or power change, a
//! network flip, a preferences patch, a timer) into the next state and the
//! commands the platform layer must carry out.

use vstd::prelude::*;
use crate::clock::{LocalDateTime, Moment, Span};
use crate::ipc::{ControlRequest, ControlResponse};
use crate::platform::{DisplayController, PlatformError, PowerController};
use crate::config::Config;
use crate::ipc::{HelperStatus, Snapshot};
use crate::mode::{LidState, PowerSource, Schedule};
use crate::state::{
    AppState, InTransitAutoDisableDecision, in_transit_decision, prevents_sleep,
    should_prevent_sleep, in_transit_auto_disable_decision,
};

verus! {

/// An atomic preferences update. Each `Some(_)` replaces the corresponding
/// setting; `None` leaves it untouched. The doubly optional fields
/// distinguish "clear" (`Some(None)`) from "set" (`Some(Some(v))`).
#[derive(Debug, Clone, Copy, PartialEq, Eq, Structural)]
pub struct PrefsPatch {
    pub start_at_login: Option<bool>,
    pub activate_at_launch: Option<bool>,
    pub battery_threshold_pct: Option<Option<u8>>,
    pub prevent_display_sleep: Option<bool>,
    pub schedule: Option<Option<Schedule>>,
    pub in_transit_timeout_minutes: Option<Option<u32>>,
}

impl Default for PrefsPatch {
    /// The patch that changes nothing.
    fn default() -> (r: PrefsPatch)
        ensures
            r == empty_patch(),
    {
        PrefsPatch {
            start_at_login: None,
            activate_at_launch: None,
            battery_threshold_pct: None,
            prevent_display_sleep: None,
            schedule: None,
            in_transit_timeout_minutes: None,
        }
    }
}

/// The patch with every field `None`.
pub open spec fn empty_patch() -> PrefsPatch {
    PrefsPatch {
        start_at_login: None,
        activate_at_launch: None,
        battery_threshold_pct: None,
        prevent_display_sleep: None,
        schedule: None,
        in_transit_timeout_minutes: None,
    }
}

/// A request to (re-)arm the expiry timer: wake at `until` (if any) and
/// reconcile, unless a newer generation has been armed by then.
#[derive(Debug, Clone, Copy, PartialEq, Eq, Structural)]
pub struct TimerArm {
    pub generation: u64,
    pub until: Option<LocalDateTime>,
}

/// A request to arm the in-transit timer: after `timeout`, evaluate the
/// in-transit rule unless a newer generation has been armed by then.
#[derive(Debug, Clone, Copy, PartialEq, Eq, Structural)]
pub struct InTransitArm {
    pub generation: u64,
    pub timeout: Span,
}

/// What became of an in-transit timer firing.
#[derive(Debug, Clone, Copy, PartialEq, Eq, Structural)]
pub enum InTransitOutcome {
    /// A newer timer superseded this one; nothing was evaluated.
    Stale,
    /// A guard failed: nothing to do.
    Skipped,
    /// Every guard held but the machine is busy: check again later.
    Deferred,
    /// Sleep prevention was switched off; persist and reconcile.
    Disabled,
}

/// The platform commands a reconcile asks for. `power` is the requested
/// system-sleep prevention (`Some(true)`: prevent, `Some(false)`: allow,
/// `None`: nothing to change); `display` likewise for the display-awake
/// assertion.
#[derive(Debug, Clone, Copy, PartialEq, Eq, Structural)]
pub struct ReconcilePlan {
    pub power: Option<bool>,
    pub display: Option<bool>,
}

/// The live state of the menu-bar role.
///
/// `last_applied` and `last_assertion_held` record what the platform layer
/// last confirmed, so reconciling only asks for changes. The generation
/// counters invalidate timers armed before a newer one.
#[derive(Debug, Clone, Copy, PartialEq, Eq, Structural)]
pub struct StateRuntime {
    pub state: AppState,
    pub config: Config,
    pub last_applied: bool,
    pub last_assertion_held: bool,
    pub timer_generation: u64,
    pub in_transit_generation: u64,
}

/// The counter after one more arming (wrapping at the end of its range).
pub open spec fn next_generation(g: u64) -> u64 {
    if g == u64::MAX {
        0
    } else {
        (g + 1) as u64
    }
}

fn bump(g: u64) -> (r: u64)
    ensures
        r == next_generation(g),
{
    if g == u64::MAX {
        0
    } else {
        g + 1
    }
}

/// The state a runtime starts from: the persisted toggle (forced on when
/// `activate_at_launch`), the persisted rules, no timer, the current lid and
/// power readings, network optimistically reachable.
pub open spec fn initial_runtime(cfg: Config, lid: LidState, power: PowerSource) -> StateRuntime {
    StateRuntime {
        state: AppState {
            enabled: cfg.activate_at_launch || cfg.enabled,
            modifiers: cfg.modifiers,
            until: None,
            lid,
            power,
            network_reachable: true,
            network_unreachable_since: None,
        },
        config: cfg,
        last_applied: false,
        last_assertion_held: false,
        timer_generation: 0,
        in_transit_generation: 0,
    }
}

/// The state after `set_enabled(enabled, until)`: the timer is kept only
/// when switching on.
pub open spec fn enabled_next(rt: StateRuntime, enabled: bool, until: Option<LocalDateTime>) -> StateRuntime {
    StateRuntime {
        state: AppState {
            enabled,
            until: if enabled { until } else { None },
            ..rt.state
        },
        timer_generation: next_generation(rt.timer_generation),
        ..rt
    }
}

/// The state after a network reachability reading.
pub open spec fn network_next(rt: StateRuntime, reachable: bool, now: Moment) -> StateRuntime {
    if reachable {
        StateRuntime {
            state: AppState {
                network_reachable: true,
                network_unreachable_since: None,
                ..rt.state
            },
            in_transit_generation: next_generation(rt.in_transit_generation),
            ..rt
        }
    } else if rt.state.network_unreachable_since is None {
        StateRuntime {
            state: AppState {
                network_reachable: false,
                network_unreachable_since: Some(now),
                ..rt.state
            },
            ..rt
        }
    } else {
        StateRuntime { state: AppState { network_reachable: false, ..rt.state }, ..rt }
    }
}

/// The configuration after applying `p`.
pub open spec fn patched_config(c: Config, p: PrefsPatch) -> Config {
    Config {
        start_at_login: match p.start_at_login {
            Some(v) => v,
            None => c.start_at_login,
        },
        activate_at_launch: match p.activate_at_launch {
            Some(v) => v,
            None => c.activate_at_launch,
        },
        battery_threshold_pct: match p.battery_threshold_pct {
            Some(v) => v,
            None => c.battery_threshold_pct,
        },
        prevent_display_sleep: match p.prevent_display_sleep {
            Some(v) => v,
            None => c.prevent_display_sleep,
        },
        modifiers: match p.schedule {
            Some(v) => crate::mode::Modifiers { schedule: v, ..c.modifiers },
            None => c.modifiers,
        },
        in_transit_timeout_minutes: match p.in_transit_timeout_minutes {
            Some(v) => v,
            None => c.in_transit_timeout_minutes,
        },
        ..c
    }
}

/// The runtime after applying `p`: the configuration is patched; the battery
/// threshold and the schedule are mirrored into the live rules; clearing the
/// in-transit timeout forgets when the network was lost and invalidates any
/// pending in-transit timer.
pub open spec fn patched_runtime(rt: StateRuntime, p: PrefsPatch) -> StateRuntime {
    let m1 = match p.battery_threshold_pct {
        Some(v) => crate::mode::Modifiers { min_battery: v, ..rt.state.modifiers },
        None => rt.state.modifiers,
    };
    let m2 = match p.schedule {
        Some(v) => crate::mode::Modifiers { schedule: v, ..m1 },
        None => m1,
    };
    let clears = p.in_transit_timeout_minutes == Some(None::<u32>);
    StateRuntime {
        state: AppState {
            modifiers: m2,
            network_unreachable_since: if clears {
                None
            } else {
                rt.state.network_unreachable_since
            },
            ..rt.state
        },
        config: patched_config(rt.config, p),
        in_transit_generation: if clears {
            next_generation(rt.in_transit_generation)
        } else {
            rt.in_transit_generation
        },
        ..rt
    }
}

/// Whether a power reading triggers the battery safeguard: switched on, a
/// threshold set, on battery strictly below it.
pub open spec fn battery_trips(rt: StateRuntime, ps: PowerSource) -> bool {
    &&& rt.state.enabled
    &&& rt.config.battery_threshold_pct matches Some(t)
    &&& ps matches PowerSource::Battery { percent } && percent < t
}

/// The state after a power-source reading.
pub open spec fn power_next(rt: StateRuntime, ps: PowerSource) -> StateRuntime {
    if battery_trips(rt, ps) {
        StateRuntime {
            state: AppState { power: ps, enabled: false, until: None, ..rt.state },
            ..rt
        }
    } else {
        StateRuntime { state: AppState { power: ps, ..rt.state }, ..rt }
    }
}

/// The state after the timer check at the start of a reconcile: an expired
/// timer switches prevention off and is cleared.
pub open spec fn expiry_checked(rt: StateRuntime, now: LocalDateTime) -> StateRuntime {
    if rt.state.until matches Some(t) && !now.earlier(t) {
        StateRuntime { state: AppState { enabled: false, until: None, ..rt.state }, ..rt }
    } else {
        rt
    }
}

/// Whether the display-awake assertion is wanted: while preventing sleep,
/// if the preference is on and there is a display worth keeping awake (lid
/// open, or an external display attached).
pub open spec fn wants_assertion(rt: StateRuntime, now: LocalDateTime, has_external_display: bool) -> bool {
    prevents_sleep(rt.state, now) && rt.config.prevent_display_sleep && (rt.state.lid
        == LidState::Open || has_external_display)
}

/// The commands a reconcile asks for, computed on the state after the
/// expiry check: only what differs from what was last applied.
pub open spec fn reconcile_plan(rt: StateRuntime, now: LocalDateTime, has_external_display: bool) -> ReconcilePlan {
    let r = expiry_checked(rt, now);
    let desired = prevents_sleep(r.state, now);
    let want = wants_assertion(r, now, has_external_display);
    ReconcilePlan {
        power: if r.last_applied != desired { Some(desired) } else { None },
        display: if r.last_assertion_held != want { Some(want) } else { None },
    }
}

fn patch_config(c: Config, p: PrefsPatch) -> (r: Config)
    ensures
        r == patched_config(c, p),
{
    Config {
        start_at_login: match p.start_at_login {
            Some(v) => v,
            None => c.start_at_login,
        },
        activate_at_launch: match p.activate_at_launch {
            Some(v) => v,
            None => c.activate_at_launch,
        },
        battery_threshold_pct: match p.battery_threshold_pct {
            Some(v) => v,
            None => c.battery_threshold_pct,
        },
        prevent_display_sleep: match p.prevent_display_sleep {
            Some(v) => v,
            None => c.prevent_display_sleep,
        },
        modifiers: match p.schedule {
            Some(v) => crate::mode::Modifiers { schedule: v, ..c.modifiers },
            None => c.modifiers,
        },
        in_transit_timeout_minutes: match p.in_transit_timeout_minutes {
            Some(v) => v,
            None => c.in_transit_timeout_minutes,
        },
        ..c
    }
}

impl StateRuntime {
    /// Start from the persisted configuration and the current lid and power
    /// readings.
    pub fn new(cfg: Config, lid: LidState, power: PowerSource) -> (r: StateRuntime)
        ensures
            r == initial_runtime(cfg, lid, power),
    {
        let enabled = if cfg.activate_at_launch {
            true
        } else {
            cfg.enabled
        };
        StateRuntime {
            state: AppState {
                enabled,
                modifiers: cfg.modifiers,
                until: None,
                lid,
                power,
                network_reachable: true,
                network_unreachable_since: None,
            },
            config: cfg,
            last_applied: false,
            last_assertion_held: false,
            timer_generation: 0,
            in_transit_generation: 0,
        }
    }

    /// Set the toggle plus an optional expiry; switching off clears any
    /// timer. Returns the timer to arm (its generation supersedes every
    /// earlier one).
    pub fn set_enabled(&mut self, enabled: bool, until: Option<LocalDateTime>) -> (r: TimerArm)
        ensures
            *final(self) == enabled_next(*old(self), enabled, until),
            r == (TimerArm {
                generation: final(self).timer_generation,
                until: final(self).state.until,
            }),
    {
        let effective_until = if enabled {
            until
        } else {
            None
        };
        self.state.enabled = enabled;
        self.state.until = effective_until;
        self.timer_generation = bump(self.timer_generation);
        TimerArm { generation: self.timer_generation, until: effective_until }
    }

    /// Whether a timer armed with `generation` is still the current one.
    pub fn timer_is_current(&self, generation: u64) -> (r: bool)
        ensures
            r == (generation == self.timer_generation),
    {
        generation == self.timer_generation
    }

    /// Network reachability flipped. Records the moment it was lost (once
    /// per unreachable window) or clears it, invalidating any in-transit
    /// timer when the network comes back. Returns whether the in-transit
    /// timer should be armed now.
    pub fn on_network_change(&mut self, reachable: bool, now: Moment) -> (r: bool)
        ensures
            *final(self) == network_next(*old(self), reachable, now),
            r == (!reachable && old(self).state.network_unreachable_since is None),
    {
        self.state.network_reachable = reachable;
        if reachable {
            self.state.network_unreachable_since = None;
            self.in_transit_generation = bump(self.in_transit_generation);
            false
        } else if self.state.network_unreachable_since.is_none() {
            self.state.network_unreachable_since = Some(now);
            true
        } else {
            false
        }
    }

    /// Arm the in-transit timer if the feature is on (a timeout of at least
    /// one minute is configured).
    pub fn arm_in_transit_timer(&mut self) -> (r: Option<InTransitArm>)
        ensures
            match old(self).config.in_transit_timeout_minutes {
                Some(n) if n > 0 => {
                    &&& *final(self) == (StateRuntime {
                        in_transit_generation: next_generation(old(self).in_transit_generation),
                        ..*old(self)
                    })
                    &&& r == Some(InTransitArm {
                        generation: final(self).in_transit_generation,
                        timeout: Span { secs: (n * 60) as u64, nanos: 0 },
                    })
                },
                _ => *final(self) == *old(self) && r is None,
            },
    {
        match self.config.in_transit_timeout_minutes {
            Some(n) => {
                if n > 0 {
                    self.in_transit_generation = bump(self.in_transit_generation);
                    Some(InTransitArm {
                        generation: self.in_transit_generation,
                        timeout: Span::from_minutes(n),
                    })
                } else {
                    None
                }
            },
            None => None,
        }
    }

    /// An in-transit timer of `generation` fired. Unless superseded, apply
    /// the in-transit rule: on `Fire` switch prevention off (and clear the
    /// timer).
    pub fn in_transit_timer_fired(
        &mut self,
        generation: u64,
        has_external_display: bool,
        system_busy: bool,
        timeout: Span,
        now: Moment,
    ) -> (r: InTransitOutcome)
        requires
            timeout.wf(),
            now.wf(),
            old(self).state.network_unreachable_since matches Some(s) ==> s.wf(),
        ensures
            generation != old(self).in_transit_generation ==> r == InTransitOutcome::Stale
                && *final(self) == *old(self),
            generation == old(self).in_transit_generation ==> {
                let d = in_transit_decision(
                    old(self).state,
                    has_external_display,
                    system_busy,
                    timeout,
                    now,
                );
                &&& d == InTransitAutoDisableDecision::Skip ==> r == InTransitOutcome::Skipped
                    && *final(self) == *old(self)
                &&& d == InTransitAutoDisableDecision::DeferBusy ==> r
                    == InTransitOutcome::Deferred && *final(self) == *old(self)
                &&& d == InTransitAutoDisableDecision::Fire ==> r == InTransitOutcome::Disabled
                    && *final(self) == (StateRuntime {
                    state: AppState { enabled: false, until: None, ..old(self).state },
                    ..*old(self)
                })
            },
    {
        if generation != self.in_transit_generation {
            return InTransitOutcome::Stale;
        }
        match in_transit_auto_disable_decision(
            &self.state,
            has_external_display,
            system_busy,
            timeout,
            now,
        ) {
            InTransitAutoDisableDecision::Skip => InTransitOutcome::Skipped,
            InTransitAutoDisableDecision::DeferBusy => InTransitOutcome::Deferred,
            InTransitAutoDisableDecision::Fire => {
                self.state.enabled = false;
                self.state.until = None;
                InTransitOutcome::Disabled
            },
        }
    }

    /// Apply a preferences patch. Returns the new "start at login" value
    /// when it changed (the platform registration must follow it).
    pub fn set_preferences(&mut self, patch: PrefsPatch) -> (r: Option<bool>)
        ensures
            *final(self) == patched_runtime(*old(self), patch),
            r == (match patch.start_at_login {
                Some(v) if v != old(self).config.start_at_login => Some(v),
                _ => None,
            }),
    {
        let change = match patch.start_at_login {
            Some(v) => if v != self.config.start_at_login {
                Some(v)
            } else {
                None
            },
            None => None,
        };
        let config = patch_config(self.config, patch);
        let m1 = match patch.battery_threshold_pct {
            Some(v) => crate::mode::Modifiers { min_battery: v, ..self.state.modifiers },
            None => self.state.modifiers,
        };
        let m2 = match patch.schedule {
            Some(v) => crate::mode::Modifiers { schedule: v, ..m1 },
            None => m1,
        };
        let clears = match patch.in_transit_timeout_minutes {
            Some(None) => true,
            _ => false,
        };
        self.config = config;
        self.state.modifiers = m2;
        if clears {
            self.state.network_unreachable_since = None;
            self.in_transit_generation = bump(self.in_transit_generation);
        }
        change
    }

    /// A new lid reading. Returns whether the lid just closed.
    pub fn on_lid_change(&mut self, new_lid: LidState) -> (r: bool)
        ensures
            *final(self) == (StateRuntime {
                state: AppState { lid: new_lid, ..old(self).state },
                ..*old(self)
            }),
            r == (old(self).state.lid == LidState::Open && new_lid == LidState::Closed),
    {
        let was_open = match self.state.lid {
            LidState::Open => true,
            LidState::Closed => false,
        };
        self.state.lid = new_lid;
        was_open && match new_lid {
            LidState::Closed => true,
            LidState::Open => false,
        }
    }

    /// After the lid closes while sleep is being prevented and no external
    /// display is attached, the built-in display is forced to sleep to save
    /// battery and heat.
    pub fn should_force_display_sleep(
        &self,
        lid_just_closed: bool,
        now: &LocalDateTime,
        has_external_display: bool,
    ) -> (r: bool)
        ensures
            r == (lid_just_closed && prevents_sleep(self.state, *now) && !has_external_display),
    {
        lid_just_closed && should_prevent_sleep(&self.state, now) && !has_external_display
    }

    /// A new power-source reading. Below the battery threshold while on,
    /// prevention switches off (and stays off when the battery recovers).
    /// Returns whether it switched off.
    pub fn on_power_change(&mut self, ps: PowerSource) -> (r: bool)
        ensures
            *final(self) == power_next(*old(self), ps),
            r == battery_trips(*old(self), ps),
    {
        self.state.power = ps;
        let trips = match (self.config.battery_threshold_pct, ps, self.state.enabled) {
            (Some(threshold), PowerSource::Battery { percent }, true) => percent < threshold,
            _ => false,
        };
        if trips {
            self.state.enabled = false;
            self.state.until = None;
        }
        trips
    }

    /// Copy the persisted parts of the live state into the configuration
    /// and return the configuration to save.
    pub fn sync_config(&mut self) -> (r: Config)
        ensures
            *final(self) == (StateRuntime {
                config: Config {
                    enabled: old(self).state.enabled,
                    modifiers: old(self).state.modifiers,
                    ..old(self).config
                },
                ..*old(self)
            }),
            r == final(self).config,
    {
        self.config.enabled = self.state.enabled;
        self.config.modifiers = self.state.modifiers;
        self.config
    }

    /// Reconcile: first clear an expired timer (switching prevention off),
    /// then ask for the system-sleep and display-awake changes needed to
    /// match the decision at `now`.
    pub fn reconcile(&mut self, now: &LocalDateTime, has_external_display: bool) -> (r: ReconcilePlan)
        ensures
            *final(self) == expiry_checked(*old(self), *now),
            r == reconcile_plan(*old(self), *now, has_external_display),
    {
        let expired = match self.state.until {
            Some(t) => !now.is_before(&t),
            None => false,
        };
        if expired {
            self.state.enabled = false;
            self.state.until = None;
        }
        let desired = should_prevent_sleep(&self.state, now);
        let lid_open = match self.state.lid {
            LidState::Open => true,
            LidState::Closed => false,
        };
        let power = if self.last_applied != desired {
            Some(desired)
        } else {
            None
        };
        let want = desired && self.config.prevent_display_sleep && (lid_open
            || has_external_display);
        let display = if self.last_assertion_held != want {
            Some(want)
        } else {
            None
        };
        ReconcilePlan { power, display }
    }

    /// The platform confirmed the system-sleep command `prevent`.
    pub fn power_applied(&mut self, prevent: bool)
        ensures
            *final(self) == (StateRuntime { last_applied: prevent, ..*old(self) }),
    {
        self.last_applied = prevent;
    }

    /// The platform confirmed the display-assertion command `held`.
    pub fn assertion_applied(&mut self, held: bool)
        ensures
            *final(self) == (StateRuntime { last_assertion_held: held, ..*old(self) }),
    {
        self.last_assertion_held = held;
    }

    /// The snapshot clients see at `now`.
    pub open spec fn snapshot_at(self, now: LocalDateTime) -> Snapshot {
        Snapshot {
            preventing_sleep_now: prevents_sleep(self.state, now),
            enabled: self.state.enabled,
            until: self.state.until,
            modifiers: self.state.modifiers,
            lid: self.state.lid,
            power: self.state.power,
            helper: HelperStatus::Running,
            start_at_login: self.config.start_at_login,
            activate_at_launch: self.config.activate_at_launch,
            default_duration_minutes: None,
            battery_threshold_pct: self.config.battery_threshold_pct,
            prevent_display_sleep: self.config.prevent_display_sleep,
            in_transit_timeout_minutes: self.config.in_transit_timeout_minutes,
        }
    }

    /// A snapshot of the current state for clients, evaluated at `now`.
    pub fn snapshot(&self, now: &LocalDateTime) -> (r: Snapshot)
        ensures
            r == self.snapshot_at(*now),
    {
        Snapshot {
            preventing_sleep_now: should_prevent_sleep(&self.state, now),
            enabled: self.state.enabled,
            until: self.state.until,
            modifiers: self.state.modifiers,
            lid: self.state.lid,
            power: self.state.power,
            helper: HelperStatus::Running,
            start_at_login: self.config.start_at_login,
            activate_at_launch: self.config.activate_at_launch,
            default_duration_minutes: None,
            battery_threshold_pct: self.config.battery_threshold_pct,
            prevent_display_sleep: self.config.prevent_display_sleep,
            in_transit_timeout_minutes: self.config.in_transit_timeout_minutes,
        }
    }
}


/// What a reconcile asked of the platform and how it answered.
/// `external_display` is the display reading the plan was computed with
/// (only taken when it matters: preventing sleep, assertion preference on,
/// lid closed).
#[derive(Debug, Clone, PartialEq, Eq)]
pub struct ReconcileReport {
    pub plan: ReconcilePlan,
    pub external_display: bool,
    pub power_result: Option<Result<(), PlatformError>>,
    pub display_result: Option<Result<(), PlatformError>>,
}

/// A requested command was carried out as the platform answered: with no
/// request nothing was called and the record is kept; with a request the
/// record follows it exactly when the call succeeded.
pub open spec fn outcome_recorded(
    before: bool,
    request: Option<bool>,
    result: Option<Result<(), PlatformError>>,
    after: bool,
) -> bool {
    match request {
        None => result is None && after == before,
        Some(d) => result matches Some(res) && (res is Ok ==> after == d) && (res is Err ==> after
            == before),
    }
}

/// What handling a lid change asked of the platform: the reconcile, the
/// external-display reading taken for the forced display sleep, and the
/// forced display sleep's result when it was requested.
#[derive(Debug, Clone, PartialEq, Eq)]
pub struct LidReport {
    pub reconcile: ReconcileReport,
    pub external_display: bool,
    pub forced: Option<Result<(), PlatformError>>,
}

/// A power request was carried out by the controller's matching call:
/// with no request there is no result; asking to prevent sleep gives a
/// result `prevent_sleep` may return, asking to allow it one `allow_sleep`
/// may return.
pub open spec fn power_answered<P: PowerController>(
    power: &P,
    request: Option<bool>,
    result: Option<Result<(), PlatformError>>,
) -> bool {
    match request {
        None => result is None,
        Some(want) => match result {
            None => false,
            Some(res) => if want {
                call_ensures(P::prevent_sleep, (power,), res)
            } else {
                call_ensures(P::allow_sleep, (power,), res)
            },
        },
    }
}

/// A display-assertion request was carried out by the controller's
/// matching call (`prevent_display_sleep` to hold the assertion,
/// `allow_display_sleep` to release it); no request, no result.
pub open spec fn display_answered<D: DisplayController>(
    display: &D,
    request: Option<bool>,
    result: Option<Result<(), PlatformError>>,
) -> bool {
    match request {
        None => result is None,
        Some(want) => match result {
            None => false,
            Some(res) => if want {
                call_ensures(D::prevent_display_sleep, (display,), res)
            } else {
                call_ensures(D::allow_display_sleep, (display,), res)
            },
        },
    }
}

/// Whether the external-display reading matters to the reconcile at `now`.
pub open spec fn needs_display_probe(rt: StateRuntime, now: LocalDateTime) -> bool {
    let r = expiry_checked(rt, now);
    prevents_sleep(r.state, now) && r.config.prevent_display_sleep && r.state.lid
        == LidState::Closed
}

/// The first step of handling a control request: what must happen before
/// the reply can be built.
#[derive(Debug, Clone, PartialEq, Eq)]
pub enum DispatchStep {
    /// Answer right away with this response; nothing changed.
    Reply(ControlResponse),
    /// Nothing changed; answer with a snapshot.
    Snapshot,
    /// The toggle changed: arm this timer, persist and reconcile, then answer.
    Toggled(TimerArm),
    /// Preferences changed: persist and reconcile, then follow the
    /// start-at-login change (if any), then answer.
    Patched(Option<bool>),
}

/// The preferences patch a `SetPreferences` request asks for.
pub open spec fn request_patch(
    start_at_login: Option<bool>,
    activate_at_launch: Option<bool>,
    battery_threshold_pct: Option<Option<u8>>,
    prevent_display_sleep: Option<bool>,
    schedule: Option<Option<Schedule>>,
) -> PrefsPatch {
    PrefsPatch {
        start_at_login,
        activate_at_launch,
        battery_threshold_pct,
        prevent_display_sleep,
        schedule,
        in_transit_timeout_minutes: None,
    }
}

impl StateRuntime {
    fn display_probe_needed(&self, now: &LocalDateTime) -> (r: bool)
        ensures
            r == needs_display_probe(*self, *now),
    {
        let expired = match self.state.until {
            Some(t) => !now.is_before(&t),
            None => false,
        };
        let state = if expired {
            AppState { enabled: false, until: None, ..self.state }
        } else {
            self.state
        };
        let closed = match state.lid {
            LidState::Closed => true,
            LidState::Open => false,
        };
        should_prevent_sleep(&state, now) && self.config.prevent_display_sleep && closed
    }

    /// Reconcile against live controllers: clear an expired timer, ask the
    /// power controller and then the display controller for whatever
    /// differs from what they last confirmed, and record each command only
    /// when its call succeeded (a failed call is retried at the next
    /// reconcile).
    pub fn reconcile_with<P: PowerController, D: DisplayController>(
        &mut self,
        now: &LocalDateTime,
        power: &P,
        display: &D,
    ) -> (r: ReconcileReport)
        ensures
            r.plan == reconcile_plan(*old(self), *now, r.external_display),
            !needs_display_probe(*old(self), *now) ==> !r.external_display,
            needs_display_probe(*old(self), *now) ==> call_ensures(
                D::has_external_display,
                (display,),
                r.external_display,
            ),
            power_answered(power, r.plan.power, r.power_result),
            display_answered(display, r.plan.display, r.display_result),
            outcome_recorded(
                old(self).last_applied,
                r.plan.power,
                r.power_result,
                final(self).last_applied,
            ),
            outcome_recorded(
                old(self).last_assertion_held,
                r.plan.display,
                r.display_result,
                final(self).last_assertion_held,
            ),
            *final(self) == (StateRuntime {
                last_applied: final(self).last_applied,
                last_assertion_held: final(self).last_assertion_held,
                ..expiry_checked(*old(self), *now)
            }),
    {
        let probe = self.display_probe_needed(now);
        let ext = if probe {
            display.has_external_display()
        } else {
            false
        };
        let plan = self.reconcile(now, ext);
        let power_result = match plan.power {
            Some(desired) => {
                let res = if desired {
                    power.prevent_sleep()
                } else {
                    power.allow_sleep()
                };
                if res.is_ok() {
                    self.last_applied = desired;
                }
                Some(res)
            },
            None => None,
        };
        let display_result = match plan.display {
            Some(want) => {
                let res = if want {
                    display.prevent_display_sleep()
                } else {
                    display.allow_display_sleep()
                };
                if res.is_ok() {
                    self.last_assertion_held = want;
                }
                Some(res)
            },
            None => None,
        };
        ReconcileReport { plan, external_display: ext, power_result, display_result }
    }

    /// The lid moved: record the reading and reconcile; then, if the lid
    /// just closed while sleep is still being prevented and no external
    /// display is attached, force the built-in display to sleep.
    pub fn lid_changed_with<P: PowerController, D: DisplayController>(
        &mut self,
        new_lid: LidState,
        now: &LocalDateTime,
        power: &P,
        display: &D,
    ) -> (r: LidReport)
        ensures
            ({
                let moved = StateRuntime {
                    state: AppState { lid: new_lid, ..old(self).state },
                    ..*old(self)
                };
                let closing = old(self).state.lid == LidState::Open && new_lid == LidState::Closed;
                let preventing = prevents_sleep(final(self).state, *now);
                &&& r.reconcile.plan == reconcile_plan(moved, *now, r.reconcile.external_display)
                &&& outcome_recorded(
                    moved.last_applied,
                    r.reconcile.plan.power,
                    r.reconcile.power_result,
                    final(self).last_applied,
                )
                &&& outcome_recorded(
                    moved.last_assertion_held,
                    r.reconcile.plan.display,
                    r.reconcile.display_result,
                    final(self).last_assertion_held,
                )
                &&& *final(self) == (StateRuntime {
                    last_applied: final(self).last_applied,
                    last_assertion_held: final(self).last_assertion_held,
                    ..expiry_checked(moved, *now)
                })
                &&& needs_display_probe(moved, *now) ==> call_ensures(
                    D::has_external_display,
                    (display,),
                    r.reconcile.external_display,
                )
                &&& power_answered(power, r.reconcile.plan.power, r.reconcile.power_result)
                &&& display_answered(display, r.reconcile.plan.display, r.reconcile.display_result)
                &&& !(closing && preventing) ==> !r.external_display
                &&& closing && preventing ==> call_ensures(
                    D::has_external_display,
                    (display,),
                    r.external_display,
                )
                &&& (r.forced is Some <==> closing && preventing && !r.external_display)
                &&& (r.forced matches Some(res) ==> call_ensures(
                    D::force_display_sleep,
                    (display,),
                    res,
                ))
            }),
    {
        let closing = self.on_lid_change(new_lid);
        let reconcile = self.reconcile_with(now, power, display);
        let preventing = should_prevent_sleep(&self.state, now);
        if closing && preventing {
            let ext = display.has_external_display();
            if !ext {
                let forced = display.force_display_sleep();
                LidReport { reconcile, external_display: ext, forced: Some(forced) }
            } else {
                LidReport { reconcile, external_display: ext, forced: None }
            }
        } else {
            LidReport { reconcile, external_display: false, forced: None }
        }
    }

    /// After the preferences window saved a schedule preference: setting a
    /// schedule while switched off also switches on (so the window has an
    /// enabled state to gate); clearing it leaves the toggle alone.
    pub fn needs_implicit_enable(&self, schedule: &Option<Schedule>) -> (r: bool)
        ensures
            r == (schedule is Some && !self.state.enabled),
    {
        schedule.is_some() && !self.state.enabled
    }

    /// Release the platform side effects (system-sleep prevention, then the
    /// display assertion) on quit, leaving the state and its persisted
    /// toggle as they are. Both releases are attempted; their results are
    /// returned in that order.
    pub fn shutdown_cleanup<P: PowerController, D: DisplayController>(
        &self,
        power: &P,
        display: &D,
    ) -> (r: (Result<(), PlatformError>, Result<(), PlatformError>))
        ensures
            call_ensures(P::allow_sleep, (power,), r.0),
            call_ensures(D::allow_display_sleep, (display,), r.1),
    {
        let a = power.allow_sleep();
        let b = display.allow_display_sleep();
        (a, b)
    }

    /// Begin handling a control request: `Ping` is answered at once,
    /// `GetStatus` changes nothing, `SetEnabled` sets the toggle (arming its
    /// timer) and `SetPreferences` applies the patch it carries (the
    /// duration preference is not kept by this runtime).
    pub fn dispatch(&mut self, req: ControlRequest) -> (r: DispatchStep)
        ensures
            match req {
                ControlRequest::Ping => {
                    &&& r == DispatchStep::Reply(ControlResponse::Pong)
                    &&& *final(self) == *old(self)
                },
                ControlRequest::GetStatus => {
                    &&& r == DispatchStep::Snapshot
                    &&& *final(self) == *old(self)
                },
                ControlRequest::SetEnabled { enabled, until } => {
                    &&& *final(self) == enabled_next(*old(self), enabled, until)
                    &&& r == DispatchStep::Toggled(
                        TimerArm {
                            generation: final(self).timer_generation,
                            until: final(self).state.until,
                        },
                    )
                },
                ControlRequest::SetPreferences {
                    start_at_login,
                    activate_at_launch,
                    battery_threshold_pct,
                    prevent_display_sleep,
                    schedule,
                    ..
                } => {
                    let p = request_patch(
                        start_at_login,
                        activate_at_launch,
                        battery_threshold_pct,
                        prevent_display_sleep,
                        schedule,
                    );
                    &&& *final(self) == patched_runtime(*old(self), p)
                    &&& r == DispatchStep::Patched(
                        match start_at_login {
                            Some(v) if v != old(self).config.start_at_login => Some(v),
                            _ => None,
                        },
                    )
                },
            },
    {
        match req {
            ControlRequest::Ping => DispatchStep::Reply(ControlResponse::Pong),
            ControlRequest::GetStatus => DispatchStep::Snapshot,
            ControlRequest::SetEnabled { enabled, until } => {
                let arm = self.set_enabled(enabled, until);
                DispatchStep::Toggled(arm)
            },
            ControlRequest::SetPreferences {
                start_at_login,
                activate_at_launch,
                battery_threshold_pct,
                prevent_display_sleep,
                schedule,
                ..
            } => {
                let patch = PrefsPatch {
                    start_at_login,
                    activate_at_launch,
                    battery_threshold_pct,
                    prevent_display_sleep,
                    schedule,
                    in_transit_timeout_minutes: None,
                };
                let change = self.set_preferences(patch);
                DispatchStep::Patched(change)
            },
        }
    }

    /// Finish handling a control request once persisting (if any) is done:
    /// on success the reply carries a snapshot at `now`, otherwise the
    /// failure's message.
    pub fn dispatch_reply(&self, outcome: Result<(), String>, now: &LocalDateTime) -> (r:
        ControlResponse)
        ensures
            match outcome {
                Ok(()) => r == ControlResponse::Success { state: self.snapshot_at(*now) },
                Err(m) => r == ControlResponse::Error { message: m },
            },
    {
        match outcome {
            Ok(()) => ControlResponse::Success { state: self.snapshot(now) },
            Err(m) => ControlResponse::Error { message: m },
        }
    }
}

/// The runtime after the platform carried out a reconcile plan.
pub open spec fn plan_applied(rt: StateRuntime, p: ReconcilePlan) -> StateRuntime {
    StateRuntime {
        last_applied: match p.power {
            Some(v) => v,
            None => rt.last_applied,
        },
        last_assertion_held: match p.display {
            Some(v) => v,
            None => rt.last_assertion_held,
        },
        ..rt
    }
}

/// A power reading never switches prevention on: the battery safeguard
/// does not re-activate when the battery recovers.
pub proof fn law_power_change_never_enables(rt: StateRuntime, ps: PowerSource)
    ensures
        power_next(rt, ps).state.enabled ==> rt.state.enabled,
{
}

/// Below the threshold on battery, an enabled runtime switches off and
/// drops its timer; at or above it, the toggle is untouched.
pub proof fn law_battery_threshold(rt: StateRuntime, percent: u8, threshold: u8)
    requires
        rt.config.battery_threshold_pct == Some(threshold),
    ensures
        percent < threshold && rt.state.enabled ==> !power_next(
            rt,
            PowerSource::Battery { percent },
        ).state.enabled && power_next(rt, PowerSource::Battery { percent }).state.until is None,
        percent >= threshold ==> power_next(rt, PowerSource::Battery { percent }).state.enabled
            == rt.state.enabled,
{
}

/// Switching off clears any pending timer, and nothing is prevented
/// afterwards.
pub proof fn law_disabling_clears_timer(
    rt: StateRuntime,
    until: Option<LocalDateTime>,
    now: LocalDateTime,
)
    ensures
        enabled_next(rt, false, until).state.until is None,
        !prevents_sleep(enabled_next(rt, false, until).state, now),
{
}

/// Every arming supersedes the previous timer: the timer armed before is no
/// longer current.
pub proof fn law_rearm_supersedes(rt: StateRuntime, enabled: bool, until: Option<LocalDateTime>)
    ensures
        enabled_next(rt, enabled, until).timer_generation != rt.timer_generation,
{
}

/// Reconciling twice in a row at the same moment asks for nothing the
/// second time, once the first plan has been carried out.
pub proof fn law_reconcile_settles(rt: StateRuntime, now: LocalDateTime, has_external_display: bool)
    ensures
        reconcile_plan(
            plan_applied(expiry_checked(rt, now), reconcile_plan(rt, now, has_external_display)),
            now,
            has_external_display,
        ) == (ReconcilePlan { power: None, display: None }),
{
}

/// An expired timer switches prevention off at the next reconcile: the
/// reconcile never asks to prevent sleep.
pub proof fn law_expired_timer_disables(rt: StateRuntime, now: LocalDateTime, ext: bool)
    requires
        rt.state.until matches Some(t) && !now.earlier(t),
    ensures
        !expiry_checked(rt, now).state.enabled,
        expiry_checked(rt, now).state.until is None,
        reconcile_plan(rt, now, ext).power != Some(true),
{
}

/// The display-awake assertion is never wanted when the preference is off,
/// nor with the lid closed and no external display attached.
pub proof fn law_assertion_needs_preference_and_display(
    rt: StateRuntime,
    now: LocalDateTime,
    ext: bool,
)
    ensures
        !rt.config.prevent_display_sleep ==> !wants_assertion(rt, now, ext),
        rt.state.lid == LidState::Closed && !ext ==> !wants_assertion(rt, now, ext),
{
}

/// A patch that sets nothing changes nothing.
pub proof fn law_empty_patch_changes_nothing(rt: StateRuntime)
    ensures
        patched_runtime(rt, empty_patch()) == rt,
{
}

/// A patch touching only the schedule leaves every other preference as it
/// was.
pub proof fn law_schedule_patch_leaves_other_preferences(rt: StateRuntime, sched: Option<Schedule>)
    ensures
        ({
            let after = patched_runtime(rt, PrefsPatch { schedule: Some(sched), ..empty_patch() });
            &&& after.config.start_at_login == rt.config.start_at_login
            &&& after.config.activate_at_launch == rt.config.activate_at_launch
            &&& after.config.battery_threshold_pct == rt.config.battery_threshold_pct
            &&& after.config.prevent_display_sleep == rt.config.prevent_display_sleep
            &&& after.config.in_transit_timeout_minutes == rt.config.in_transit_timeout_minutes
            &&& after.state.modifiers.schedule == sched
            &&& after.config.modifiers.schedule == sched
            &&& after.state.enabled == rt.state.enabled
        }),
{
}

/// A repeated "unreachable" reading keeps the moment the network was first
/// lost; a "reachable" reading clears it and invalidates the in-transit
/// timer.
pub proof fn law_network_readings(rt: StateRuntime, now: Moment)
    ensures
        rt.state.network_unreachable_since is Some ==> network_next(rt, false, now).state.network_unreachable_since
            == rt.state.network_unreachable_since,
        network_next(rt, true, now).state.network_unreachable_since is None,
        network_next(rt, true, now).in_transit_generation != rt.in_transit_generation,
{
}

/// Setting a schedule from the preferences window leaves sleep prevention
/// switched on with that schedule in force, whether it was on before or not.
pub proof fn law_setting_schedule_switches_on(rt: StateRuntime, s: Schedule)
    ensures
        ({
            let patched = patched_runtime(rt, PrefsPatch { schedule: Some(Some(s)), ..empty_patch() });
            let after = if !patched.state.enabled {
                enabled_next(patched, true, None)
            } else {
                patched
            };
            &&& after.state.enabled
            &&& after.state.modifiers.schedule == Some(s)
            &&& after.config.modifiers.schedule == Some(s)
        }),
{
}

/// Launching restores the last toggle: the runtime starts switched on
/// exactly when the saved configuration was on or asks to activate at
/// launch, with no timer, the given lid and power readings, and the saved
/// rules and preferences.
pub proof fn law_launch_restores_last_state(cfg: Config, lid: LidState, power: PowerSource)
    ensures
        initial_runtime(cfg, lid, power).state.enabled == (cfg.enabled || cfg.activate_at_launch),
        !cfg.activate_at_launch ==> initial_runtime(cfg, lid, power).state.enabled == cfg.enabled,
        initial_runtime(cfg, lid, power).state.until is None,
        initial_runtime(cfg, lid, power).state.lid == lid,
        initial_runtime(cfg, lid, power).state.power == power,
        initial_runtime(cfg, lid, power).state.modifiers == cfg.modifiers,
        initial_runtime(cfg, lid, power).config == cfg,
{
}

/// The snapshot reports the live readings and the toggle: after a power or
/// lid reading, the next snapshot shows that reading.
pub proof fn law_snapshot_reports_live_readings(
    rt: StateRuntime,
    now: LocalDateTime,
    ps: PowerSource,
)
    ensures
        rt.snapshot_at(now).power == rt.state.power,
        rt.snapshot_at(now).lid == rt.state.lid,
        rt.snapshot_at(now).enabled == rt.state.enabled,
        rt.snapshot_at(now).until == rt.state.until,
        rt.snapshot_at(now).modifiers == rt.state.modifiers,
        rt.snapshot_at(now).preventing_sleep_now == prevents_sleep(rt.state, now),
        power_next(rt, ps).snapshot_at(now).power == ps,
{
}

} // verus!
