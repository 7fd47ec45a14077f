//! The command-line subcommands as exchanges with the menu-bar role: each
//! step says what to send or print next, and the reply to a request decides
//! the step after it. The caller performs the sending and printing.

use vstd::prelude::*;
use crate::cli::{Cli, CliError, Command, CommandV, Rejection, ScheduleArg, UpdateArg,
    command_view, parse_command};
use crate::commands::{
    InstallAction, decide_install_action, dev_refusal, format_dev_refusal_message,
    format_schedule_set_confirmation, format_schedule_show_text, format_status_human, opt_view,
    parse_schedule, parsed_schedule, set_confirmation, show_text, status_text,
};
use crate::install_detect::InstallMethod;
use crate::ipc::{
    ControlRequest, ControlResponse, Snapshot, build_clear_schedule_request,
    build_set_schedule_request, unexpected_response, unexpected_response_message,
};
use crate::mode::Schedule;
use crate::text::{chars_of, contains_chars, decimal, has_infix, push_decimal, push_lit, string_of};

verus! {

/// The reply a sent request waits for, with what is needed to go on.
#[derive(Debug, Clone, PartialEq, Eq)]
pub enum Awaiting {
    /// The result of switching on or off.
    SetResult,
    /// The status, to be shown as text or JSON.
    Status { json: bool },
    /// The snapshot after saving a schedule.
    ScheduleSaved { sched: Schedule },
    /// The result of switching on after saving a schedule.
    ScheduleEnabled { sched: Schedule },
    /// The result of clearing the schedule.
    ScheduleCleared,
    /// The status whose schedule is to be shown.
    ScheduleShown { json: bool },
}

/// What the command line does next.
#[derive(Debug, Clone, PartialEq, Eq)]
pub enum CliStep {
    /// Send `request` (starting the menu-bar application first when
    /// `auto_launch` and it does not answer) and resume with the reply.
    Send { request: ControlRequest, auto_launch: bool, then: Awaiting },
    /// Print the text and a newline; done.
    PrintLine(String),
    /// Print the text as it is; done.
    Print(String),
    /// Print the snapshot as pretty JSON; done.
    PrintSnapshotJson(Snapshot),
    /// Print the (optional) schedule as pretty JSON; done.
    PrintScheduleJson(Option<Schedule>),
    /// Fail with this message.
    Fail(String),
    /// Print "OpenLid is not running." and exit with status 1.
    NotRunning,
}

/// A step with its texts as character sequences.
pub enum CliStepV {
    Send { request: ControlRequest, auto_launch: bool, then: Awaiting },
    PrintLine(Seq<char>),
    Print(Seq<char>),
    PrintSnapshotJson(Snapshot),
    PrintScheduleJson(Option<Schedule>),
    Fail(Seq<char>),
    NotRunning,
}

/// The view of a step.
pub open spec fn step_view(s: CliStep) -> CliStepV {
    match s {
        CliStep::Send { request, auto_launch, then } => CliStepV::Send {
            request,
            auto_launch,
            then,
        },
        CliStep::PrintLine(t) => CliStepV::PrintLine(t@),
        CliStep::Print(t) => CliStepV::Print(t@),
        CliStep::PrintSnapshotJson(s) => CliStepV::PrintSnapshotJson(s),
        CliStep::PrintScheduleJson(s) => CliStepV::PrintScheduleJson(s),
        CliStep::Fail(t) => CliStepV::Fail(t@),
        CliStep::NotRunning => CliStepV::NotRunning,
    }
}

/// The request that switches sleep prevention on or off, with no expiry.
pub open spec fn toggle_request(enabled: bool) -> ControlRequest {
    ControlRequest::SetEnabled { enabled, until: None }
}

/// `on`: switch sleep prevention on, with no expiry.
pub fn on() -> (r: CliStep)
    ensures
        step_view(r) == (CliStepV::Send {
            request: toggle_request(true),
            auto_launch: true,
            then: Awaiting::SetResult,
        }),
{
    CliStep::Send {
        request: ControlRequest::SetEnabled { enabled: true, until: None },
        auto_launch: true,
        then: Awaiting::SetResult,
    }
}

/// `off`: switch sleep prevention off.
pub fn off() -> (r: CliStep)
    ensures
        step_view(r) == (CliStepV::Send {
            request: toggle_request(false),
            auto_launch: true,
            then: Awaiting::SetResult,
        }),
{
    CliStep::Send {
        request: ControlRequest::SetEnabled { enabled: false, until: None },
        auto_launch: true,
        then: Awaiting::SetResult,
    }
}

/// `status`: ask for the status without starting the application.
pub fn status(json: bool) -> (r: CliStep)
    ensures
        step_view(r) == (CliStepV::Send {
            request: ControlRequest::GetStatus,
            auto_launch: false,
            then: Awaiting::Status { json },
        }),
{
    CliStep::Send {
        request: ControlRequest::GetStatus,
        auto_launch: false,
        then: Awaiting::Status { json },
    }
}

/// The request that saves a schedule, leaving every other preference.
pub open spec fn set_schedule_request(s: Schedule) -> ControlRequest {
    ControlRequest::SetPreferences {
        start_at_login: None,
        activate_at_launch: None,
        default_duration_minutes: None,
        battery_threshold_pct: None,
        prevent_display_sleep: None,
        schedule: Some(Some(s)),
    }
}

/// The request that clears the schedule, leaving every other preference.
pub open spec fn clear_schedule_request() -> ControlRequest {
    ControlRequest::SetPreferences {
        start_at_login: None,
        activate_at_launch: None,
        default_duration_minutes: None,
        battery_threshold_pct: None,
        prevent_display_sleep: None,
        schedule: Some(None),
    }
}

/// The first step of a `schedule` subcommand.
pub open spec fn schedule_first(arg: ScheduleArg) -> CliStepV {
    match arg {
        ScheduleArg::SetWindow { from, to, days } => match parsed_schedule(
            from@,
            to@,
            match days {
                Some(d) => Some(d@),
                None => None,
            },
        ) {
            Err(m) => CliStepV::Fail(m),
            Ok(s) => CliStepV::Send {
                request: set_schedule_request(s),
                auto_launch: true,
                then: Awaiting::ScheduleSaved { sched: s },
            },
        },
        ScheduleArg::Clear => CliStepV::Send {
            request: clear_schedule_request(),
            auto_launch: true,
            then: Awaiting::ScheduleCleared,
        },
        ScheduleArg::Show { json } => CliStepV::Send {
            request: ControlRequest::GetStatus,
            auto_launch: true,
            then: Awaiting::ScheduleShown { json },
        },
    }
}

/// `schedule set|clear|show`: read the window (refusing a bad one before
/// anything is sent), then save, clear or fetch.
pub fn schedule(arg: ScheduleArg) -> (r: CliStep)
    ensures
        step_view(r) == schedule_first(arg),
{
    match arg {
        ScheduleArg::SetWindow { from, to, days } => {
            let d: Option<&str> = match &days {
                Some(t) => Some(t.as_str()),
                None => None,
            };
            assert(opt_view(d) == match days {
                Some(t) => Some(t@),
                None => None::<Seq<char>>,
            });
            match parse_schedule(from.as_str(), to.as_str(), d) {
                Err(m) => CliStep::Fail(m),
                Ok(s) => CliStep::Send {
                    request: build_set_schedule_request(s),
                    auto_launch: true,
                    then: Awaiting::ScheduleSaved { sched: s },
                },
            }
        },
        ScheduleArg::Clear => CliStep::Send {
            request: build_clear_schedule_request(),
            auto_launch: true,
            then: Awaiting::ScheduleCleared,
        },
        ScheduleArg::Show { json } => CliStep::Send {
            request: ControlRequest::GetStatus,
            auto_launch: true,
            then: Awaiting::ScheduleShown { json },
        },
    }
}

/// What `status --json` prints when the application is not running.
pub open spec fn not_running_json() -> Seq<char> {
    "{\"helper\":\"not-running\"}"@
}

/// The step after a reply that is not a snapshot: the menu-bar role's
/// error, an unexpected shape, or the transport's failure.
pub open spec fn failure_step(reply: Result<ControlResponse, String>) -> CliStepV {
    match reply {
        Err(e) => CliStepV::Fail(e@),
        Ok(ControlResponse::Error { message }) => CliStepV::Fail(message@),
        Ok(_) => CliStepV::Fail(unexpected_response_message()),
    }
}

/// The step after `reply` arrives for `waiting`.
pub open spec fn resume_step(waiting: Awaiting, reply: Result<ControlResponse, String>) -> CliStepV {
    match reply {
        Ok(ControlResponse::Success { state }) => match waiting {
            Awaiting::SetResult => CliStepV::PrintLine(
                if state.enabled {
                    "ON"@
                } else {
                    "OFF"@
                },
            ),
            Awaiting::Status { json } => if json {
                CliStepV::PrintSnapshotJson(state)
            } else {
                CliStepV::Print(status_text(state))
            },
            Awaiting::ScheduleSaved { sched } => if !state.enabled {
                CliStepV::Send {
                    request: toggle_request(true),
                    auto_launch: true,
                    then: Awaiting::ScheduleEnabled { sched },
                }
            } else {
                CliStepV::PrintLine(set_confirmation(sched, false))
            },
            Awaiting::ScheduleEnabled { sched } => CliStepV::PrintLine(
                set_confirmation(sched, true),
            ),
            Awaiting::ScheduleCleared => CliStepV::PrintLine("Schedule cleared."@),
            Awaiting::ScheduleShown { json } => if json {
                CliStepV::PrintScheduleJson(state.modifiers.schedule)
            } else {
                CliStepV::PrintLine(show_text(state.modifiers.schedule))
            },
        },
        Err(_) => match waiting {
            Awaiting::Status { json } => if json {
                CliStepV::PrintLine(not_running_json())
            } else {
                CliStepV::NotRunning
            },
            _ => failure_step(reply),
        },
        _ => failure_step(reply),
    }
}

/// Go on after the reply to a sent request (or the transport's failure to
/// get one). `status` reports a menu-bar role that cannot be reached
/// instead of failing; saving a schedule switches sleep prevention on when
/// it was off, and says so.
pub fn resume(waiting: Awaiting, reply: Result<ControlResponse, String>) -> (r: CliStep)
    ensures
        step_view(r) == resume_step(waiting, reply),
{
    match reply {
        Ok(ControlResponse::Success { state }) => match waiting {
            Awaiting::SetResult => if state.enabled {
                CliStep::PrintLine(string_of(&chars_of("ON")))
            } else {
                CliStep::PrintLine(string_of(&chars_of("OFF")))
            },
            Awaiting::Status { json } => if json {
                CliStep::PrintSnapshotJson(state)
            } else {
                CliStep::Print(format_status_human(&state))
            },
            Awaiting::ScheduleSaved { sched } => if !state.enabled {
                CliStep::Send {
                    request: ControlRequest::SetEnabled { enabled: true, until: None },
                    auto_launch: true,
                    then: Awaiting::ScheduleEnabled { sched },
                }
            } else {
                CliStep::PrintLine(format_schedule_set_confirmation(&sched, false))
            },
            Awaiting::ScheduleEnabled { sched } => CliStep::PrintLine(
                format_schedule_set_confirmation(&sched, true),
            ),
            Awaiting::ScheduleCleared => CliStep::PrintLine(
                string_of(&chars_of("Schedule cleared.")),
            ),
            Awaiting::ScheduleShown { json } => if json {
                CliStep::PrintScheduleJson(state.modifiers.schedule)
            } else {
                let shown = match &state.modifiers.schedule {
                    Some(s) => Some(s),
                    None => None,
                };
                CliStep::PrintLine(format_schedule_show_text(shown))
            },
        },
        Ok(ControlResponse::Error { message }) => CliStep::Fail(message),
        Ok(ControlResponse::Pong) => CliStep::Fail(unexpected_response()),
        Err(e) => match waiting {
            Awaiting::Status { json } => if json {
                CliStep::PrintLine(string_of(&chars_of("{\"helper\":\"not-running\"}")))
            } else {
                CliStep::NotRunning
            },
            _ => CliStep::Fail(e),
        },
    }
}

/// Why a command line does not lead to a subcommand here.
#[derive(Debug, Clone, PartialEq, Eq)]
pub enum RunError {
    /// The arguments were not accepted (or asked for help or the version).
    Usage(CliError),
    /// The `helper` role is started by launchd, never from a shell.
    HelperRole,
}

/// The message for an attempt to run the `helper` role by hand.
pub open spec fn helper_role_message() -> Seq<char> {
    "the 'helper' role is for launchd only"@
}

impl RunError {
    /// The message shown for a refused `helper` role (usage errors are
    /// rendered by the caller).
    pub fn helper_role_text() -> (r: String)
        ensures
            r@ == helper_role_message(),
    {
        string_of(&chars_of("the 'helper' role is for launchd only"))
    }
}

/// Read the command line and pick the subcommand to run; the `helper`
/// role is refused.
pub fn run(args: &[&str]) -> (r: Result<Command, RunError>)
    ensures
        match r {
            Ok(c) => parse_command(args@.map_values(|s: &str| s@)) == Ok::<CommandV, Rejection>(
                command_view(c),
            ) && c != Command::Helper,
            Err(RunError::Usage(e)) => parse_command(args@.map_values(|s: &str| s@)) == Err::<
                CommandV,
                Rejection,
            >((e.kind, e.arg@)),
            Err(RunError::HelperRole) => parse_command(args@.map_values(|s: &str| s@)) == Ok::<
                CommandV,
                Rejection,
            >(CommandV::Helper),
        },
{
    match Cli::try_parse_from(args) {
        Err(e) => Err(RunError::Usage(e)),
        Ok(cli) => match cli.command {
            Command::Helper => Err(RunError::HelperRole),
            c => Ok(c),
        },
    }
}

/// Where `update` goes once the release and the install method are known.
#[derive(Debug, Clone, PartialEq, Eq)]
pub enum UpdateRoute {
    /// Nothing to do (up to date, or only checking and up to date).
    Done,
    /// Only checking, and a newer release exists: exit with status 1.
    ExitUpdateAvailable,
    /// A Homebrew install: print the Homebrew advice unless JSON was asked
    /// for, and stop.
    Advise { print: bool },
    /// A development build: fail with this message.
    Refuse(String),
    /// Ask, then install on confirmation.
    PromptThenInstall,
    /// Install without asking.
    InstallNow,
}

/// Decide what `update` does after printing the status. `--check` never
/// installs; otherwise a newer release is routed by install method.
pub fn update_route(arg: &UpdateArg, available: bool, method: &InstallMethod) -> (r: UpdateRoute)
    ensures
        arg.check ==> r == if available {
            UpdateRoute::ExitUpdateAvailable
        } else {
            UpdateRoute::Done
        },
        !arg.check && !available ==> r == UpdateRoute::Done,
        !arg.check && available ==> match *method {
            InstallMethod::Homebrew => r == UpdateRoute::Advise { print: !arg.json },
            InstallMethod::Dev { path } => r matches UpdateRoute::Refuse(m) && m@ == dev_refusal(
                path@,
            ),
            InstallMethod::Manual => r == if arg.yes {
                UpdateRoute::InstallNow
            } else {
                UpdateRoute::PromptThenInstall
            },
        },
{
    if arg.check {
        if available {
            return UpdateRoute::ExitUpdateAvailable;
        }
        return UpdateRoute::Done;
    }
    if !available {
        return UpdateRoute::Done;
    }
    match decide_install_action(method, arg.yes) {
        InstallAction::HomebrewAdvise => UpdateRoute::Advise { print: !arg.json },
        InstallAction::DevRefuse(path) => UpdateRoute::Refuse(
            format_dev_refusal_message(path.as_str()),
        ),
        InstallAction::PromptThenInstall => UpdateRoute::PromptThenInstall,
        InstallAction::InstallNow => UpdateRoute::InstallNow,
    }
}

/// The exit status of `update --check`: 0 when this build is up to date, 1
/// when a newer release exists, and 2 when the update server could not be
/// reached or its reply could not be read (`available` carries why).
pub open spec fn check_status(available: Result<bool, String>) -> u8 {
    match available {
        Ok(false) => 0,
        Ok(true) => 1,
        Err(_) => 2,
    }
}

/// The exit status of `update --check` for the outcome of finding out
/// whether a newer release exists.
pub fn update_check_status(available: &Result<bool, String>) -> (r: u8)
    ensures
        r == check_status(*available),
{
    match available {
        Ok(false) => 0,
        Ok(true) => 1,
        Err(_) => 2,
    }
}

/// How the program starts.
#[derive(Debug, Clone, Copy, PartialEq, Eq, Structural)]
pub enum Entry {
    /// Run the menu-bar application in this process.
    Menubar,
    /// Run a command-line subcommand.
    Cli,
    /// Start the menu-bar application detached, report it, and return.
    Background,
}

/// The marker of an executable inside an application bundle.
pub open spec fn bundle_marker() -> Seq<char> {
    ".app/Contents/MacOS/"@
}

/// Without arguments: inside the application bundle, or without a
/// terminal on standard input, run the menu bar here; typed at a terminal,
/// start it in the background instead.
pub fn dispatch_no_args(exe_path: Option<&str>, stdin_is_tty: bool) -> (r: Entry)
    ensures
        r == if (exe_path matches Some(p) && has_infix(p@, bundle_marker())) || !stdin_is_tty {
            Entry::Menubar
        } else {
            Entry::Background
        },
{
    let in_bundle = match exe_path {
        Some(p) => contains_chars(&chars_of(p), &chars_of(".app/Contents/MacOS/")),
        None => false,
    };
    if in_bundle || !stdin_is_tty {
        Entry::Menubar
    } else {
        Entry::Background
    }
}

/// Pick how to start from the first argument: `menubar` runs the menu bar,
/// any other argument is a subcommand, none at all is decided by
/// `dispatch_no_args`.
pub fn entry_point(first_arg: Option<&str>, exe_path: Option<&str>, stdin_is_tty: bool) -> (r:
    Entry)
    ensures
        match first_arg {
            Some(a) => r == if a@ == "menubar"@ {
                Entry::Menubar
            } else {
                Entry::Cli
            },
            None => r == if (exe_path matches Some(p) && has_infix(p@, bundle_marker()))
                || !stdin_is_tty {
                Entry::Menubar
            } else {
                Entry::Background
            },
        },
{
    match first_arg {
        Some(a) => if crate::text::eq_lit(&chars_of(a), "menubar") {
            Entry::Menubar
        } else {
            Entry::Cli
        },
        None => dispatch_no_args(exe_path, stdin_is_tty),
    }
}

/// What is printed after starting the menu bar in the background.
pub open spec fn background_message(pid: u32) -> Seq<char> {
    "openlid started in background (pid "@ + decimal(pid as nat) + ").\n"@
        + "  openlid status   - show state\n"@ + "  openlid off      - disable\n"@
        + "  pkill openlid    - stop the menubar app\n"@
}

/// The report printed after starting the menu bar in the background.
pub fn background_started_message(pid: u32) -> (r: String)
    ensures
        r@ == background_message(pid),
{
    let mut out: Vec<char> = Vec::new();
    push_lit(&mut out, "openlid started in background (pid ");
    push_decimal(&mut out, pid as u64);
    push_lit(&mut out, ").\n");
    push_lit(&mut out, "  openlid status   - show state\n");
    push_lit(&mut out, "  openlid off      - disable\n");
    push_lit(&mut out, "  pkill openlid    - stop the menubar app\n");
    assert(out@ =~= background_message(pid));
    string_of(&out)
}

/// Attempts made to reach the menu-bar role when it may be started on
/// demand; otherwise a single attempt is made.
pub const AUTO_LAUNCH_ATTEMPTS: u32 = 6;

/// The retry state of sending one request to the menu-bar role.
#[derive(Debug, Clone, Copy, PartialEq, Eq, Structural)]
pub struct SendRetry {
    pub attempts_left: u32,
    pub auto_launch: bool,
}

/// What to do after a failed attempt.
#[derive(Debug, Clone, Copy, PartialEq, Eq, Structural)]
pub struct RetryStep {
    /// Start the menu-bar application (by bundle identifier) first.
    pub launch_app: bool,
    /// Wait half a second and try again; otherwise give up with the last
    /// error.
    pub retry: bool,
}

impl SendRetry {
    /// A fresh retry state: six attempts when the application may be
    /// started on demand, else one.
    pub fn new(auto_launch: bool) -> (r: SendRetry)
        ensures
            r.auto_launch == auto_launch,
            r.attempts_left == if auto_launch {
                AUTO_LAUNCH_ATTEMPTS
            } else {
                1
            },
    {
        SendRetry { attempts_left: if auto_launch { AUTO_LAUNCH_ATTEMPTS } else { 1 }, auto_launch }
    }

    /// An attempt failed: the application is launched after the first
    /// failure only (when allowed); retry while attempts remain.
    pub fn after_failure(&mut self) -> (r: RetryStep)
        requires
            old(self).attempts_left > 0,
        ensures
            final(self).attempts_left == old(self).attempts_left - 1,
            final(self).auto_launch == old(self).auto_launch,
            r.launch_app == (old(self).auto_launch && old(self).attempts_left == AUTO_LAUNCH_ATTEMPTS),
            r.retry == (final(self).attempts_left > 0),
    {
        let launch = self.auto_launch && self.attempts_left == AUTO_LAUNCH_ATTEMPTS;
        self.attempts_left = self.attempts_left - 1;
        RetryStep { launch_app: launch, retry: self.attempts_left > 0 }
    }
}

} // verus!
