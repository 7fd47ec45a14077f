use openlid::cli::{CliErrorKind, Command, ScheduleArg, UpdateArg};
use openlid::clock::ClockTime;
use openlid::days::DaysOfWeek;
use openlid::flows::{
    dispatch_no_args, entry_point, off, on, update_check_status, resume, run, schedule, status, update_route,
    Awaiting, CliStep, Entry, RunError, SendRetry, UpdateRoute,
};
use openlid::install_detect::InstallMethod;
use openlid::ipc::{ControlRequest, ControlResponse, HelperStatus, Snapshot};
use openlid::mode::{LidState, Modifiers, PowerSource, Schedule};

fn snap(enabled: bool) -> Snapshot {
    Snapshot {
        preventing_sleep_now: false,
        enabled,
        until: None,
        modifiers: Modifiers::default(),
        lid: LidState::Open,
        power: PowerSource::Ac,
        helper: HelperStatus::Running,
        start_at_login: false,
        activate_at_launch: false,
        default_duration_minutes: None,
        battery_threshold_pct: None,
        prevent_display_sleep: true,
        in_transit_timeout_minutes: None,
    }
}

fn sched() -> Schedule {
    Schedule {
        days: DaysOfWeek::all(),
        start: ClockTime::from_hms(8, 0, 0).unwrap(),
        end: ClockTime::from_hms(18, 0, 0).unwrap(),
    }
}

#[test]
fn on_and_off_send_the_toggle() {
    match on() {
        CliStep::Send { request, auto_launch, then } => {
            assert_eq!(request, ControlRequest::SetEnabled { enabled: true, until: None });
            assert!(auto_launch);
            assert_eq!(then, Awaiting::SetResult);
        }
        other => panic!("unexpected {other:?}"),
    }
    match off() {
        CliStep::Send { request, .. } => {
            assert_eq!(request, ControlRequest::SetEnabled { enabled: false, until: None })
        }
        other => panic!("unexpected {other:?}"),
    }
}

#[test]
fn set_result_prints_the_new_state() {
    let r = resume(Awaiting::SetResult, Ok(ControlResponse::Success { state: snap(true) }));
    assert_eq!(r, CliStep::PrintLine("ON".to_string()));
    let r = resume(Awaiting::SetResult, Ok(ControlResponse::Success { state: snap(false) }));
    assert_eq!(r, CliStep::PrintLine("OFF".to_string()));
    let r = resume(Awaiting::SetResult, Ok(ControlResponse::Error { message: "nope".to_string() }));
    assert_eq!(r, CliStep::Fail("nope".to_string()));
    let r = resume(Awaiting::SetResult, Ok(ControlResponse::Pong));
    assert_eq!(r, CliStep::Fail("unexpected response".to_string()));
    let r = resume(Awaiting::SetResult, Err("connection refused".to_string()));
    assert_eq!(r, CliStep::Fail("connection refused".to_string()));
}

#[test]
fn status_does_not_launch_and_reports_not_running() {
    match status(false) {
        CliStep::Send { auto_launch, then, .. } => {
            assert!(!auto_launch);
            assert_eq!(then, Awaiting::Status { json: false });
        }
        other => panic!("unexpected {other:?}"),
    }
    assert_eq!(resume(Awaiting::Status { json: false }, Err("x".to_string())), CliStep::NotRunning);
    assert_eq!(
        resume(Awaiting::Status { json: true }, Err("x".to_string())),
        CliStep::PrintLine("{\"helper\":\"not-running\"}".to_string())
    );
    match resume(Awaiting::Status { json: false }, Ok(ControlResponse::Success { state: snap(false) })) {
        CliStep::Print(text) => assert!(text.starts_with("Sleep prevention: OFF\n")),
        other => panic!("unexpected {other:?}"),
    }
    assert_eq!(
        resume(Awaiting::Status { json: true }, Ok(ControlResponse::Success { state: snap(true) })),
        CliStep::PrintSnapshotJson(snap(true))
    );
}

#[test]
fn schedule_set_saves_then_switches_on_when_off() {
    let arg = ScheduleArg::SetWindow { from: "08:00".to_string(), to: "18:00".to_string(), days: None };
    let then = match schedule(arg) {
        CliStep::Send { request, auto_launch, then } => {
            assert!(auto_launch);
            assert!(matches!(request, ControlRequest::SetPreferences { schedule: Some(Some(_)), .. }));
            then
        }
        other => panic!("unexpected {other:?}"),
    };
    assert_eq!(then, Awaiting::ScheduleSaved { sched: sched() });
    let next = resume(then, Ok(ControlResponse::Success { state: snap(false) }));
    let then = match next {
        CliStep::Send { request, then, .. } => {
            assert_eq!(request, ControlRequest::SetEnabled { enabled: true, until: None });
            then
        }
        other => panic!("unexpected {other:?}"),
    };
    assert_eq!(
        resume(then, Ok(ControlResponse::Success { state: snap(true) })),
        CliStep::PrintLine("Schedule: 08:00-18:00 (daily); openlid is now ON".to_string())
    );
}

#[test]
fn schedule_set_when_already_on_just_confirms() {
    let r = resume(Awaiting::ScheduleSaved { sched: sched() }, Ok(ControlResponse::Success { state: snap(true) }));
    assert_eq!(r, CliStep::PrintLine("Schedule: 08:00-18:00 (daily)".to_string()));
}

#[test]
fn schedule_set_with_a_bad_window_sends_nothing() {
    let arg = ScheduleArg::SetWindow { from: "08:00".to_string(), to: "08:00".to_string(), days: None };
    match schedule(arg) {
        CliStep::Fail(m) => assert!(m.contains("non-empty")),
        other => panic!("unexpected {other:?}"),
    }
}

#[test]
fn schedule_clear_and_show() {
    match schedule(ScheduleArg::Clear) {
        CliStep::Send { request, then, .. } => {
            assert!(matches!(request, ControlRequest::SetPreferences { schedule: Some(None), .. }));
            assert_eq!(
                resume(then, Ok(ControlResponse::Success { state: snap(false) })),
                CliStep::PrintLine("Schedule cleared.".to_string())
            );
        }
        other => panic!("unexpected {other:?}"),
    }
    let mut s = snap(true);
    s.modifiers.schedule = Some(sched());
    assert_eq!(
        resume(Awaiting::ScheduleShown { json: false }, Ok(ControlResponse::Success { state: s.clone() })),
        CliStep::PrintLine("Schedule: 08:00-18:00 (daily)".to_string())
    );
    assert_eq!(
        resume(Awaiting::ScheduleShown { json: true }, Ok(ControlResponse::Success { state: s })),
        CliStep::PrintScheduleJson(Some(sched()))
    );
    assert_eq!(
        resume(Awaiting::ScheduleShown { json: false }, Ok(ControlResponse::Success { state: snap(false) })),
        CliStep::PrintLine("No schedule set.".to_string())
    );
}

#[test]
fn run_refuses_the_helper_role() {
    assert_eq!(run(&["openlid", "helper"]), Err(RunError::HelperRole));
    assert_eq!(run(&["openlid", "on"]), Ok(Command::On));
    match run(&["openlid", "bogus"]) {
        Err(RunError::Usage(e)) => assert_eq!(e.kind, CliErrorKind::UnknownSubcommand),
        other => panic!("unexpected {other:?}"),
    }
    assert_eq!(RunError::helper_role_text(), "the 'helper' role is for launchd only");
}

#[test]
fn update_route_follows_flags_and_method() {
    let check = UpdateArg { check: true, yes: false, json: false };
    assert_eq!(update_route(&check, true, &InstallMethod::Manual), UpdateRoute::ExitUpdateAvailable);
    assert_eq!(update_route(&check, false, &InstallMethod::Manual), UpdateRoute::Done);
    let plain = UpdateArg { check: false, yes: false, json: false };
    assert_eq!(update_route(&plain, false, &InstallMethod::Manual), UpdateRoute::Done);
    assert_eq!(update_route(&plain, true, &InstallMethod::Manual), UpdateRoute::PromptThenInstall);
    let yes = UpdateArg { check: false, yes: true, json: true };
    assert_eq!(update_route(&yes, true, &InstallMethod::Manual), UpdateRoute::InstallNow);
    assert_eq!(update_route(&yes, true, &InstallMethod::Homebrew), UpdateRoute::Advise { print: false });
    assert_eq!(update_route(&plain, true, &InstallMethod::Homebrew), UpdateRoute::Advise { print: true });
    match update_route(&plain, true, &InstallMethod::Dev { path: "/d".to_string() }) {
        UpdateRoute::Refuse(m) => assert!(m.contains("/d") && m.contains("dev build")),
        other => panic!("unexpected {other:?}"),
    }
}

#[test]
fn entry_point_routes_by_argument_and_terminal() {
    assert_eq!(entry_point(Some("menubar"), None, true), Entry::Menubar);
    assert_eq!(entry_point(Some("status"), None, true), Entry::Cli);
    let bundled = Some("/Applications/OpenLid.app/Contents/MacOS/openlid");
    assert_eq!(entry_point(None, bundled, true), Entry::Menubar);
    assert_eq!(dispatch_no_args(Some("/usr/local/bin/openlid"), false), Entry::Menubar);
    assert_eq!(dispatch_no_args(Some("/usr/local/bin/openlid"), true), Entry::Background);
    assert_eq!(dispatch_no_args(None, true), Entry::Background);
}

#[test]
fn background_message_names_the_pid() {
    let m = openlid::flows::background_started_message(4321);
    assert!(m.starts_with("openlid started in background (pid 4321).\n"));
    assert!(m.contains("  openlid off      - disable\n"));
}

#[test]
fn send_retry_launches_once_and_gives_up_after_six() {
    let mut r = SendRetry::new(true);
    let first = r.after_failure();
    assert!(first.launch_app && first.retry);
    let mut tries = 1;
    loop {
        let step = r.after_failure();
        tries += 1;
        assert!(!step.launch_app);
        if !step.retry {
            break;
        }
    }
    assert_eq!(tries, 6);
    let mut once = SendRetry::new(false);
    let step = once.after_failure();
    assert!(!step.launch_app && !step.retry);
}

#[test]
fn update_check_exit_status_covers_errors() {
    assert_eq!(update_check_status(&Ok(false)), 0);
    assert_eq!(update_check_status(&Ok(true)), 1);
    assert_eq!(update_check_status(&Err("fetching latest release from GitHub".to_string())), 2);
}
