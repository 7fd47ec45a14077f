//! The privileged helper's logic: its idle-exit timer, its connection
//! count, the ownership marker that records a sleep toggle in flight, the
//! order in which a toggle touches the marker and the power settings, the
//! reading of `pmset -g`, and its start-up checks.

use vstd::prelude::*;
use crate::clock::Span;
use crate::text::{chars_of, has_prefix, string_of};

verus! {

/// Seconds without any connection after which the helper exits.
pub const IDLE_EXIT_SECS: u64 = 15;

/// Where the ownership marker lives.
pub const MARKER_PATH: &'static str = "/Library/Application Support/openlid/sleep-prevention.enabled";

/// Code requirement for clients of a locally built helper.
pub const DEV_REQUIREMENT: &'static str = "identifier \"io.openlid.app\"";

/// Code requirement for clients of a released helper: the application's
/// identifier, signed with a Developer ID of the pinned team.
pub const PROD_REQUIREMENT: &'static str = "identifier \"io.openlid.app\" and anchor apple generic and certificate 1[field.1.2.840.113635.100.6.2.6] /* exists */ and certificate leaf[field.1.2.840.113635.100.6.1.13] /* exists */ and certificate leaf[subject.OU] = \"X5SZL4562S\"";

/// The idle-exit timer. Each arming gets a fresh generation; a sleeper woken
/// after its delay fires only if the timer is still armed with the
/// generation it was given.
#[derive(Debug, Clone, Copy, PartialEq, Eq, Structural)]
pub struct IdleExit {
    pub generation: u64,
    pub armed: bool,
}

/// A request to start a sleeper: after `delay`, ask whether `generation`
/// still fires.
#[derive(Debug, Clone, Copy, PartialEq, Eq, Structural)]
pub struct IdleExitArm {
    pub generation: u64,
    pub delay: Span,
}

/// The generation after one more arming (wrapping at the end of its range).
pub open spec fn next_idle_generation(g: u64) -> u64 {
    if g == u64::MAX {
        0
    } else {
        (g + 1) as u64
    }
}

impl IdleExit {
    /// Whether a sleeper holding `generation` fires.
    pub open spec fn fires(self, generation: u64) -> bool {
        self.armed && self.generation == generation
    }

    /// The timer after an arming.
    pub open spec fn armed_next(self) -> IdleExit {
        IdleExit { generation: next_idle_generation(self.generation), armed: true }
    }

    /// A disarmed timer that has never been armed.
    pub fn new() -> (r: IdleExit)
        ensures
            r.generation == 0,
            !r.armed,
    {
        IdleExit { generation: 0, armed: false }
    }

    /// Arm (or re-arm) the timer for the standard idle delay. Any sleeper
    /// from an earlier arming is superseded.
    pub fn arm(&mut self) -> (r: IdleExitArm)
        ensures
            *final(self) == old(self).armed_next(),
            r.generation == final(self).generation,
            r.delay == Span::from_secs_spec(IDLE_EXIT_SECS),
    {
        self.generation = if self.generation == u64::MAX {
            0
        } else {
            self.generation + 1
        };
        self.armed = true;
        IdleExitArm { generation: self.generation, delay: Span::from_secs(IDLE_EXIT_SECS) }
    }

    /// Cancel the timer; no pending sleeper fires.
    pub fn disarm(&mut self)
        ensures
            *final(self) == (IdleExit { armed: false, ..*old(self) }),
    {
        self.armed = false;
    }

    /// Whether the timer is armed.
    pub fn is_armed(&self) -> (r: bool)
        ensures
            r == self.armed,
    {
        self.armed
    }

    /// Whether a sleeper holding `generation` should exit the helper now.
    pub fn should_fire(&self, generation: u64) -> (r: bool)
        ensures
            r == self.fires(generation),
    {
        self.armed && self.generation == generation
    }
}

/// An armed timer fires for the generation it handed out.
pub proof fn law_armed_timer_fires(t: IdleExit)
    ensures
        t.armed_next().fires(t.armed_next().generation),
{
}

/// Disarming stops every pending sleeper.
pub proof fn law_disarm_prevents_firing(t: IdleExit, generation: u64)
    ensures
        !(IdleExit { armed: false, ..t }).fires(generation),
{
}

/// Re-arming supersedes the previous arming: its sleeper no longer fires.
pub proof fn law_rearm_supersedes_previous(t: IdleExit)
    ensures
        !t.armed_next().armed_next().fires(t.armed_next().generation),
{
}

/// The helper's connection bookkeeping: the number of open connections and
/// the idle-exit timer they hold off.
#[derive(Debug, Clone, Copy, PartialEq, Eq, Structural)]
pub struct Shared {
    pub active_connections: usize,
    pub idle_exit: IdleExit,
}

impl Shared {
    /// Bookkeeping with `active_connections` open connections.
    pub fn new(active_connections: usize, idle_exit: IdleExit) -> (r: Shared)
        ensures
            r.active_connections == active_connections,
            r.idle_exit == idle_exit,
    {
        Shared { active_connections, idle_exit }
    }
}

/// The count after one more open connection (wrapping as the counter does).
pub open spec fn count_after_open(n: usize) -> usize {
    if n == usize::MAX {
        0
    } else {
        (n + 1) as usize
    }
}

/// The stored count after a close (wrapping below zero, as the counter
/// does) and the count the close is judged by (never below zero).
pub open spec fn count_after_close(n: usize) -> usize {
    if n == 0 {
        usize::MAX
    } else {
        (n - 1) as usize
    }
}

/// A connection opened: count it; the first one cancels the idle exit.
pub fn on_connection_opened(shared: &mut Shared)
    ensures
        final(shared).active_connections == count_after_open(old(shared).active_connections),
        old(shared).active_connections == 0 ==> final(shared).idle_exit == (IdleExit {
            armed: false,
            ..old(shared).idle_exit
        }),
        old(shared).active_connections != 0 ==> final(shared).idle_exit == old(shared).idle_exit,
{
    let prev = shared.active_connections;
    shared.active_connections = if prev == usize::MAX {
        0
    } else {
        prev + 1
    };
    if prev == 0 {
        shared.idle_exit.disarm();
    }
}

/// A connection closed or was interrupted: uncount it; when none is left,
/// arm the idle exit and return the sleeper to start.
pub fn on_connection_closed(shared: &mut Shared) -> (r: Option<IdleExitArm>)
    ensures
        final(shared).active_connections == count_after_close(old(shared).active_connections),
        old(shared).active_connections <= 1 ==> {
            &&& final(shared).idle_exit == old(shared).idle_exit.armed_next()
            &&& r == Some(
                IdleExitArm {
                    generation: final(shared).idle_exit.generation,
                    delay: Span::from_secs_spec(IDLE_EXIT_SECS),
                },
            )
        },
        old(shared).active_connections > 1 ==> final(shared).idle_exit == old(shared).idle_exit
            && r is None,
{
    let prev = shared.active_connections;
    shared.active_connections = if prev == 0 {
        usize::MAX
    } else {
        prev - 1
    };
    let now: usize = if prev == 0 {
        0
    } else {
        prev - 1
    };
    if now == 0 {
        Some(shared.idle_exit.arm())
    } else {
        None
    }
}

/// Opening the first connection cancels any pending idle exit: no sleeper
/// armed before fires.
pub proof fn law_open_connection_holds_off_exit(t: IdleExit, generation: u64)
    ensures
        !(IdleExit { armed: false, ..t }).fires(generation),
{
}

/// Closing the last connection arms an idle exit that fires unless
/// something intervenes.
pub proof fn law_last_close_arms_exit(s: Shared)
    requires
        s.active_connections == 1,
    ensures
        s.idle_exit.armed_next().fires(s.idle_exit.armed_next().generation),
        count_after_close(s.active_connections) == 0,
{
}

/// The marker file that records "this helper disabled system sleep", so a
/// crash can be undone at the next start.
#[derive(Debug, Clone, PartialEq, Eq)]
pub struct OwnershipMarker {
    pub path: String,
}

impl OwnershipMarker {
    /// The marker at its standard location.
    pub fn new() -> (r: OwnershipMarker)
        ensures
            r.path@ == MARKER_PATH@,
    {
        OwnershipMarker { path: string_of(&chars_of(MARKER_PATH)) }
    }

    /// A marker at `path`.
    pub fn at(path: &str) -> (r: OwnershipMarker)
        ensures
            r.path@ == path@,
    {
        OwnershipMarker { path: string_of(&chars_of(path)) }
    }

    /// Whether the marker file exists, as std's `Path::exists` reports it
    /// (false also when its metadata cannot be read). Depends on the disk:
    /// nothing is claimed of the answer.
    #[verifier::external_body]
    pub fn is_present(&self) -> bool {
        std::path::Path::new(&self.path).exists()
    }
}

/// One step of toggling sleep prevention.
#[derive(Debug, Clone, Copy, PartialEq, Eq, Structural)]
pub enum ToggleStep {
    /// Create the ownership marker.
    WriteMarker,
    /// Set the power setting `disablesleep` to on (`true`) or off.
    SetDisableSleep(bool),
    /// Delete the ownership marker (a missing marker is fine).
    RemoveMarker,
}

/// The steps of a toggle, in order. Switching on writes the marker before
/// disabling sleep; switching off re-enables sleep before removing the
/// marker. The steps run in order and stop at the first failure.
pub open spec fn toggle_plan(enabled: bool) -> Seq<ToggleStep> {
    if enabled {
        seq![ToggleStep::WriteMarker, ToggleStep::SetDisableSleep(true)]
    } else {
        seq![ToggleStep::SetDisableSleep(false), ToggleStep::RemoveMarker]
    }
}

/// The steps of a toggle.
pub fn toggle_steps(enabled: bool) -> (r: Vec<ToggleStep>)
    ensures
        r@ == toggle_plan(enabled),
{
    if enabled {
        vec![ToggleStep::WriteMarker, ToggleStep::SetDisableSleep(true)]
    } else {
        vec![ToggleStep::SetDisableSleep(false), ToggleStep::RemoveMarker]
    }
}

/// The steps to run at start-up: a marker left behind means a previous run
/// disabled sleep and never undid it, so sleep is restored and the marker
/// removed.
pub fn startup_steps(marker_exists: bool) -> (r: Vec<ToggleStep>)
    ensures
        marker_exists ==> r@ == toggle_plan(false),
        !marker_exists ==> r@.len() == 0,
{
    if marker_exists {
        toggle_steps(false)
    } else {
        Vec::new()
    }
}

/// What is on disk and in the power settings: whether the marker exists and
/// whether system sleep is disabled.
pub struct Machine {
    pub marker: bool,
    pub sleep_disabled: bool,
}

/// The machine after one successful step.
pub open spec fn step_effect(m: Machine, s: ToggleStep) -> Machine {
    match s {
        ToggleStep::WriteMarker => Machine { marker: true, ..m },
        ToggleStep::SetDisableSleep(b) => Machine { sleep_disabled: b, ..m },
        ToggleStep::RemoveMarker => Machine { marker: false, ..m },
    }
}

/// The machine after the first `k` steps succeeded.
pub open spec fn run_prefix(m: Machine, steps: Seq<ToggleStep>, k: nat) -> Machine
    decreases k,
{
    if k == 0 || steps.len() == 0 {
        m
    } else if k > steps.len() {
        run_prefix(m, steps, steps.len())
    } else {
        step_effect(run_prefix(m, steps, (k - 1) as nat), steps[k - 1])
    }
}

/// Sleep is never left disabled without the marker that lets a restart
/// undo it.
pub open spec fn recoverable(m: Machine) -> bool {
    m.sleep_disabled ==> m.marker
}

/// Whatever step of a toggle fails (or none), the machine stays
/// recoverable; when every step succeeds, both the marker and the power
/// setting match the requested state.
pub proof fn law_toggle_keeps_machine_recoverable(m: Machine, enabled: bool, k: nat)
    requires
        recoverable(m),
        k <= 2,
    ensures
        recoverable(run_prefix(m, toggle_plan(enabled), k)),
        run_prefix(m, toggle_plan(enabled), 2).sleep_disabled == enabled,
        run_prefix(m, toggle_plan(enabled), 2).marker == enabled,
{
    reveal_with_fuel(run_prefix, 3);
}

/// Whatever the helper's toggle returns, the steps it reports as
/// succeeded, applied to a machine where sleep is never disabled without
/// the marker, keep it so; when the toggle returns `Ok`, the marker exists
/// exactly when sleep prevention was switched on, and sleep is disabled
/// exactly then.
pub proof fn law_handled_toggle_keeps_machine_recoverable<P: Pmset, M: MarkerStore>(
    helper: &HelperImpl<P, M>,
    enabled: bool,
    k: int,
    r: Result<(), String>,
    m: Machine,
)
    requires
        steps_outcome(&helper.pmset, &helper.marker, toggle_plan(enabled), k, r),
        recoverable(m),
    ensures
        recoverable(run_prefix(m, toggle_plan(enabled), k as nat)),
        r is Ok ==> run_prefix(m, toggle_plan(enabled), k as nat).marker == enabled,
        r is Ok ==> run_prefix(m, toggle_plan(enabled), k as nat).sleep_disabled == enabled,
{
    assert(toggle_plan(enabled).len() == 2);
    law_toggle_keeps_machine_recoverable(m, enabled, k as nat);
}

/// The power-settings tool: switch `disablesleep` and read it back.
/// Implemented over `/usr/bin/pmset` by the helper binary (and by fakes in
/// tests).
pub trait Pmset {
    fn set_disable_sleep(&self, enabled: bool) -> Result<(), String>;

    fn read_disable_sleep(&self) -> Result<bool, String>;
}

/// Where the ownership marker is written and removed (removing a missing
/// marker succeeds). Implemented over the file system by the helper binary
/// (and by fakes in tests).
pub trait MarkerStore {
    fn write(&self) -> Result<(), String>;

    fn remove(&self) -> Result<(), String>;
}

/// Whether `res` is a result that carrying out `step` may give: a result
/// the power settings' or the marker's implementation may return for it.
pub open spec fn step_may_return<P: Pmset, M: MarkerStore>(
    pmset: &P,
    marker: &M,
    step: ToggleStep,
    res: Result<(), String>,
) -> bool {
    match step {
        ToggleStep::WriteMarker => call_ensures(M::write, (marker,), res),
        ToggleStep::SetDisableSleep(b) => call_ensures(P::set_disable_sleep, (pmset, b), res),
        ToggleStep::RemoveMarker => call_ensures(M::remove, (marker,), res),
    }
}

/// Running `steps` in order, stopping at the first failure, ended with
/// `res` after the first `k` steps succeeded: each of them returned `Ok`,
/// and `res` is `Ok` when all did, else the error of step `k`.
pub open spec fn steps_outcome<P: Pmset, M: MarkerStore>(
    pmset: &P,
    marker: &M,
    steps: Seq<ToggleStep>,
    k: int,
    res: Result<(), String>,
) -> bool {
    &&& 0 <= k <= steps.len()
    &&& forall|i: int| 0 <= i < k ==> #[trigger] step_may_return(pmset, marker, steps[i], Ok(()))
    &&& (res is Ok <==> k == steps.len())
    &&& (res matches Err(e) ==> step_may_return(pmset, marker, steps[k], Err(e)))
}

/// Run toggle steps in order against the power settings and the marker,
/// stopping at the first failure. Returns how many steps succeeded and the
/// first failure, if any.
pub fn run_steps<P: Pmset, M: MarkerStore>(
    pmset: &P,
    marker: &M,
    steps: &Vec<ToggleStep>,
) -> (r: (usize, Result<(), String>))
    ensures
        steps_outcome(pmset, marker, steps@, r.0 as int, r.1),
{
    let mut i: usize = 0;
    while i < steps.len()
        invariant
            i <= steps@.len(),
            forall|j: int| 0 <= j < i ==> #[trigger] step_may_return(pmset, marker, steps@[j], Ok(())),
        decreases steps.len() - i,
    {
        let res = match steps[i] {
            ToggleStep::WriteMarker => marker.write(),
            ToggleStep::SetDisableSleep(b) => pmset.set_disable_sleep(b),
            ToggleStep::RemoveMarker => marker.remove(),
        };
        assert(step_may_return(pmset, marker, steps@[i as int], res));
        if res.is_err() {
            return (i, res);
        }
        // The step succeeded: its result is `Ok(())`.
        assert(res == Ok::<(), String>(res->Ok_0));
        i = i + 1;
    }
    (i, Ok(()))
}

/// The helper's request handlers.
pub struct HelperImpl<P: Pmset, M: MarkerStore> {
    pub pmset: P,
    pub marker: M,
    pub idle_exit: IdleExit,
    pub validator: ClientValidator,
}

impl<P: Pmset, M: MarkerStore> HelperImpl<P, M> {
    /// Switch system sleep prevention: on writes the marker first and then
    /// disables sleep; off re-enables sleep first and then removes the
    /// marker. The first failure stops the sequence and is returned, so
    /// sleep is never left disabled without the marker.
    pub fn handle_set_sleep_prevention(&self, enabled: bool) -> (r: Result<(), String>)
        ensures
            exists|k: int| #[trigger]
                steps_outcome(&self.pmset, &self.marker, toggle_plan(enabled), k, r),
    {
        let steps = toggle_steps(enabled);
        let (done, result) = run_steps(&self.pmset, &self.marker, &steps);
        assert(steps_outcome(&self.pmset, &self.marker, toggle_plan(enabled), done as int, result));
        result
    }

    /// Whether system sleep is currently disabled, as the power settings
    /// report it.
    pub fn handle_get_status(&self) -> (r: Result<bool, String>)
        ensures
            call_ensures(P::read_disable_sleep, (&self.pmset,), r),
    {
        self.pmset.read_disable_sleep()
    }
}

/// The value passed to `pmset -a disablesleep`.
pub fn disable_sleep_flag(enabled: bool) -> (r: &'static str)
    ensures
        r@ == (if enabled {
            "1"@
        } else {
            "0"@
        }),
{
    if enabled {
        "1"
    } else {
        "0"
    }
}

/// The requirement the helper holds clients to: the permissive one for a
/// development build, the pinned one otherwise.
pub fn active_requirement(dev_profile: bool) -> (r: &'static str)
    ensures
        r@ == (if dev_profile {
            DEV_REQUIREMENT@
        } else {
            PROD_REQUIREMENT@
        }),
{
    if dev_profile {
        DEV_REQUIREMENT
    } else {
        PROD_REQUIREMENT
    }
}

/// Refusal text when the helper was not started by launchd.
pub open spec fn not_launchd_message() -> Seq<char> {
    "openlid-helper must be loaded by launchd, not invoked directly"@
}

/// The helper runs only as a launchd daemon: its parent must be process 1
/// and its standard input must not be a terminal.
pub fn guard_launched_by_launchd(parent_pid: i32, stdin_is_tty: bool) -> (r: Result<(), String>)
    ensures
        r is Ok <==> (parent_pid == 1 && !stdin_is_tty),
        r matches Err(m) ==> m@ == not_launchd_message(),
{
    if parent_pid != 1 || stdin_is_tty {
        Err(string_of(&chars_of("openlid-helper must be loaded by launchd, not invoked directly")))
    } else {
        Ok(())
    }
}

/// The checker of connecting clients against a code requirement.
#[derive(Debug, Clone, PartialEq, Eq)]
pub struct ClientValidator {
    pub requirement_text: String,
}

impl ClientValidator {
    /// A validator for `requirement_text`.
    pub fn new(requirement_text: &str) -> (r: ClientValidator)
        ensures
            r.requirement_text@ == requirement_text@,
    {
        ClientValidator { requirement_text: string_of(&chars_of(requirement_text)) }
    }

    /// Whether a client is allowed, given the outcome of checking its signature
    /// against the requirement: allowed only when the check ran and passed;
    /// an error while checking rejects the client.
    pub fn allows(&self, check: Result<bool, String>) -> (r: bool)
        ensures
            r == (check == Ok::<bool, String>(true)),
    {
        match check {
            Ok(v) => v,
            Err(_) => false,
        }
    }
}

} // verus!
