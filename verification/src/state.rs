//! The live application state and the pure decisions taken on it.

use vstd::prelude::*;
use crate::clock::{LocalDateTime, Moment, Span};
use crate::mode::{LidState, Modifiers, PowerSource};

verus! {

/// Live application state. `enabled` and `modifiers` persist to the
/// configuration; every other field exists only at run time.
///
/// `until` is the optional timer expiry: prevention is active before it and
/// stops at it. `None` means indefinite.
///
/// `network_unreachable_since` is the moment at which reachability of the
/// public Internet was lost, or `None` while it is reachable.
#[derive(Debug, Clone, Copy, PartialEq, Eq, Structural)]
pub struct AppState {
    pub enabled: bool,
    pub modifiers: Modifiers,
    pub until: Option<LocalDateTime>,
    pub lid: LidState,
    pub power: PowerSource,
    pub network_reachable: bool,
    pub network_unreachable_since: Option<Moment>,
}

/// Default for `network_reachable`: optimistic, so a fresh state does not
/// trip the in-transit detector before a real reading arrives.
pub fn default_reachable() -> (r: bool)
    ensures
        r,
{
    true
}

impl Default for AppState {
    /// The fresh-install state: off, no rules, no timer, lid open, on AC,
    /// network reachable.
    fn default() -> (r: AppState)
        ensures
            !r.enabled,
            r.modifiers == (Modifiers { only_on_ac: false, min_battery: None, schedule: None }),
            r.until is None,
            r.lid == LidState::Open,
            r.power == PowerSource::Ac,
            r.network_reachable,
            r.network_unreachable_since is None,
    {
        AppState {
            enabled: false,
            modifiers: Modifiers::default(),
            until: None,
            lid: LidState::Open,
            power: PowerSource::Ac,
            network_reachable: default_reachable(),
            network_unreachable_since: None,
        }
    }
}

/// Whether the modifier rules let sleep prevention run at `now` on `power`.
pub open spec fn rules_allow(m: Modifiers, now: LocalDateTime, power: PowerSource) -> bool {
    &&& !(m.only_on_ac && power != PowerSource::Ac)
    &&& (m.min_battery matches Some(min) ==> (power matches PowerSource::Battery { percent }
        ==> percent >= min))
    &&& (m.schedule matches Some(s) ==> s.covers(now))
}

/// "Should sleep be prevented right now?": switched on, allowed by the
/// modifier rules, and before the timer's expiry if one is set.
pub open spec fn prevents_sleep(state: AppState, now: LocalDateTime) -> bool {
    &&& state.enabled
    &&& rules_allow(state.modifiers, now, state.power)
    &&& (state.until matches Some(u) ==> now.earlier(u))
}

/// The modifier rules allow prevention at `now` on `power`.
pub fn modifiers_allow(m: &Modifiers, now: &LocalDateTime, power: &PowerSource) -> (r: bool)
    ensures
        r == rules_allow(*m, *now, *power),
{
    if m.only_on_ac && !(match power {
        PowerSource::Ac => true,
        _ => false,
    }) {
        return false;
    }
    if let Some(min) = m.min_battery {
        if let PowerSource::Battery { percent } = power {
            if *percent < min {
                return false;
            }
        }
    }
    if let Some(sched) = &m.schedule {
        if !sched.contains(now) {
            return false;
        }
    }
    true
}

/// The single source of truth: should sleep be prevented right now?
///
/// When `enabled`, prevent sleep subject to the modifiers and to the
/// optional expiry timer, which stops prevention at `until`.
pub fn should_prevent_sleep(state: &AppState, now: &LocalDateTime) -> (r: bool)
    ensures
        r == prevents_sleep(*state, *now),
{
    if !state.enabled {
        return false;
    }
    if !modifiers_allow(&state.modifiers, now, &state.power) {
        return false;
    }
    if let Some(until) = &state.until {
        return now.is_before(until);
    }
    true
}

/// The outcome of evaluating the in-transit auto-disable rule.
#[derive(Debug, Clone, Copy, PartialEq, Eq, Structural)]
pub enum InTransitAutoDisableDecision {
    /// Auto-disable now: every guard holds, the timeout elapsed, and the
    /// machine is idle.
    Fire,
    /// Every guard holds and the timeout elapsed, but the machine is busy:
    /// do not disable, recheck later.
    DeferBusy,
    /// A guard failed, or the timeout has not yet elapsed.
    Skip,
}

/// The safety guards of the in-transit rule, timeout included: switched on,
/// lid closed, on battery, no external display, and the network unreachable
/// for at least `timeout` by `now`.
pub open spec fn in_transit_guards_hold(
    state: AppState,
    has_external_display: bool,
    timeout: Span,
    now: Moment,
) -> bool {
    &&& state.enabled
    &&& state.lid == LidState::Closed
    &&& state.power is Battery
    &&& !has_external_display
    &&& state.network_unreachable_since matches Some(since) && elapsed(since, now) >= timeout.total()
}

/// Nanoseconds elapsed from `since` to `now`, zero if `since` is later.
pub open spec fn elapsed(since: Moment, now: Moment) -> int {
    if now.total() >= since.total() {
        now.total() - since.total()
    } else {
        0
    }
}

/// The in-transit decision: `Skip` unless every guard holds; then
/// `DeferBusy` when the machine is busy and `Fire` when it is idle.
pub open spec fn in_transit_decision(
    state: AppState,
    has_external_display: bool,
    system_busy: bool,
    timeout: Span,
    now: Moment,
) -> InTransitAutoDisableDecision {
    if !in_transit_guards_hold(state, has_external_display, timeout, now) {
        InTransitAutoDisableDecision::Skip
    } else if system_busy {
        InTransitAutoDisableDecision::DeferBusy
    } else {
        InTransitAutoDisableDecision::Fire
    }
}

/// Should the in-transit auto-disable fire right now, defer, or skip?
///
/// Guards, in order: switched on; lid closed; on battery; no external
/// display; network unreachable for at least `timeout`. Only when all hold
/// is `system_busy` consulted, which turns `Fire` into `DeferBusy`.
pub fn in_transit_auto_disable_decision(
    state: &AppState,
    has_external_display: bool,
    system_busy: bool,
    timeout: Span,
    now: Moment,
) -> (r: InTransitAutoDisableDecision)
    requires
        timeout.wf(),
        now.wf(),
        state.network_unreachable_since matches Some(s) ==> s.wf(),
    ensures
        r == in_transit_decision(*state, has_external_display, system_busy, timeout, now),
{
    if !state.enabled {
        return InTransitAutoDisableDecision::Skip;
    }
    if state.lid != LidState::Closed {
        return InTransitAutoDisableDecision::Skip;
    }
    if !(match state.power {
        PowerSource::Battery { .. } => true,
        _ => false,
    }) {
        return InTransitAutoDisableDecision::Skip;
    }
    if has_external_display {
        return InTransitAutoDisableDecision::Skip;
    }
    let since = match state.network_unreachable_since {
        Some(since) => since,
        None => return InTransitAutoDisableDecision::Skip,
    };
    if now.duration_since(&since).is_shorter_than(&timeout) {
        return InTransitAutoDisableDecision::Skip;
    }
    if system_busy {
        return InTransitAutoDisableDecision::DeferBusy;
    }
    InTransitAutoDisableDecision::Fire
}

/// `true` exactly when the in-transit decision is `Fire`.
pub fn should_auto_disable_in_transit(
    state: &AppState,
    has_external_display: bool,
    system_busy: bool,
    timeout: Span,
    now: Moment,
) -> (r: bool)
    requires
        timeout.wf(),
        now.wf(),
        state.network_unreachable_since matches Some(s) ==> s.wf(),
    ensures
        r == (in_transit_decision(*state, has_external_display, system_busy, timeout, now)
            == InTransitAutoDisableDecision::Fire),
{
    match in_transit_auto_disable_decision(state, has_external_display, system_busy, timeout, now) {
        InTransitAutoDisableDecision::Fire => true,
        _ => false,
    }
}

/// Switched off, sleep is never prevented.
pub proof fn law_disabled_never_prevents(state: AppState, now: LocalDateTime)
    requires
        !state.enabled,
    ensures
        !prevents_sleep(state, now),
{
}

/// Once the timer's expiry is reached, sleep is no longer prevented.
pub proof fn law_expired_timer_never_prevents(state: AppState, now: LocalDateTime)
    requires
        state.until matches Some(u) && !now.earlier(u),
    ensures
        !prevents_sleep(state, now),
{
}

/// Switched on with no rules and no timer, sleep is always prevented,
/// whatever the lid, power source or time.
pub proof fn law_enabled_without_rules_always_prevents(state: AppState, now: LocalDateTime)
    requires
        state.enabled,
        !state.modifiers.only_on_ac,
        state.modifiers.min_battery is None,
        state.modifiers.schedule is None,
        state.until is None,
    ensures
        prevents_sleep(state, now),
{
}

/// The battery minimum never blocks prevention on AC power.
pub proof fn law_min_battery_ignored_on_ac(m: Modifiers, now: LocalDateTime)
    requires
        !m.only_on_ac,
        m.schedule is None,
    ensures
        rules_allow(m, now, PowerSource::Ac),
{
}

/// Whether the machine is busy only decides between `Fire` and `DeferBusy`:
/// it never turns a `Skip` into anything else, nor the reverse.
pub proof fn law_busy_only_defers(
    state: AppState,
    has_external_display: bool,
    timeout: Span,
    now: Moment,
)
    ensures
        (in_transit_decision(state, has_external_display, true, timeout, now)
            == InTransitAutoDisableDecision::Skip) <==> (in_transit_decision(
            state,
            has_external_display,
            false,
            timeout,
            now,
        ) == InTransitAutoDisableDecision::Skip),
        (in_transit_decision(state, has_external_display, true, timeout, now)
            == InTransitAutoDisableDecision::DeferBusy) <==> (in_transit_decision(
            state,
            has_external_display,
            false,
            timeout,
            now,
        ) == InTransitAutoDisableDecision::Fire),
{
}

/// The auto-disable never fires while switched off, with the lid open, on
/// AC power, with an external display, or with the network reachable.
pub proof fn law_fire_requires_every_guard(
    state: AppState,
    has_external_display: bool,
    system_busy: bool,
    timeout: Span,
    now: Moment,
)
    requires
        in_transit_decision(state, has_external_display, system_busy, timeout, now)
            != InTransitAutoDisableDecision::Skip,
    ensures
        state.enabled,
        state.lid == LidState::Closed,
        state.power != PowerSource::Ac,
        !has_external_display,
        state.network_unreachable_since is Some,
{
}

/// Once the guards hold at some moment, they still hold later on (with the
/// same readings): the timeout, once elapsed, stays elapsed.
pub proof fn law_guards_stay_satisfied_over_time(
    state: AppState,
    has_external_display: bool,
    timeout: Span,
    now: Moment,
    later: Moment,
)
    requires
        in_transit_guards_hold(state, has_external_display, timeout, now),
        later.total() >= now.total(),
    ensures
        in_transit_guards_hold(state, has_external_display, timeout, later),
{
}

} // verus!
