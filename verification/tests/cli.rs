use openlid::cli::{Cli, CliErrorKind, Command, ConfigArg, ScheduleArg};

#[test]
fn parses_menubar() {
    let cli = Cli::try_parse_from(&["openlid", "menubar"]).unwrap();
    assert!(matches!(cli.command, Command::Menubar));
}

#[test]
fn parses_helper() {
    let cli = Cli::try_parse_from(&["openlid", "helper"]).unwrap();
    assert!(matches!(cli.command, Command::Helper));
}

#[test]
fn parses_on() {
    let cli = Cli::try_parse_from(&["openlid", "on"]).unwrap();
    assert!(matches!(cli.command, Command::On));
}

#[test]
fn parses_off() {
    let cli = Cli::try_parse_from(&["openlid", "off"]).unwrap();
    assert!(matches!(cli.command, Command::Off));
}

#[test]
fn parses_status_default_is_human() {
    let cli = Cli::try_parse_from(&["openlid", "status"]).unwrap();
    assert!(matches!(cli.command, Command::Status { json: false }));
}

#[test]
fn parses_status_with_json_flag() {
    let cli = Cli::try_parse_from(&["openlid", "status", "--json"]).unwrap();
    assert!(matches!(cli.command, Command::Status { json: true }));
}

#[test]
fn parses_config_show() {
    let cli = Cli::try_parse_from(&["openlid", "config", "show"]).unwrap();
    assert!(matches!(cli.command, Command::Config(ConfigArg::Show)));
}

#[test]
fn parses_config_path() {
    let cli = Cli::try_parse_from(&["openlid", "config", "path"]).unwrap();
    assert!(matches!(cli.command, Command::Config(ConfigArg::Path)));
}

#[test]
fn parses_config_edit() {
    let cli = Cli::try_parse_from(&["openlid", "config", "edit"]).unwrap();
    assert!(matches!(cli.command, Command::Config(ConfigArg::Edit)));
}

#[test]
fn rejects_config_without_subcommand() {
    assert!(Cli::try_parse_from(&["openlid", "config"]).is_err());
}

#[test]
fn rejects_unknown_subcommand() {
    assert!(Cli::try_parse_from(&["openlid", "thisdoesnotexist"]).is_err());
}

#[test]
fn parses_schedule_set_with_all_flags() {
    let cli = Cli::try_parse_from(&[
        "openlid",
        "schedule",
        "set",
        "--from",
        "09:00",
        "--to",
        "18:00",
        "--days",
        "Mon,Tue,Wed,Thu,Fri",
    ])
    .unwrap();
    match cli.command {
        Command::Schedule(ScheduleArg::SetWindow { from, to, days }) => {
            assert_eq!(from, "09:00");
            assert_eq!(to, "18:00");
            assert_eq!(days.as_deref(), Some("Mon,Tue,Wed,Thu,Fri"));
        }
        other => panic!("expected Schedule(SetWindow), got {other:?}"),
    }
}

#[test]
fn parses_schedule_set_without_days_leaves_days_none() {
    let cli = Cli::try_parse_from(&[
        "openlid", "schedule", "set", "--from", "08:00", "--to", "18:00",
    ])
    .unwrap();
    match cli.command {
        Command::Schedule(ScheduleArg::SetWindow { days, .. }) => assert!(days.is_none()),
        other => panic!("expected Schedule(SetWindow), got {other:?}"),
    }
}

#[test]
fn parses_schedule_clear() {
    let cli = Cli::try_parse_from(&["openlid", "schedule", "clear"]).unwrap();
    assert!(matches!(cli.command, Command::Schedule(ScheduleArg::Clear)));
}

#[test]
fn parses_schedule_show_default_human() {
    let cli = Cli::try_parse_from(&["openlid", "schedule", "show"]).unwrap();
    assert!(matches!(
        cli.command,
        Command::Schedule(ScheduleArg::Show { json: false })
    ));
}

#[test]
fn parses_schedule_show_with_json_flag() {
    let cli = Cli::try_parse_from(&["openlid", "schedule", "show", "--json"]).unwrap();
    assert!(matches!(
        cli.command,
        Command::Schedule(ScheduleArg::Show { json: true })
    ));
}

#[test]
fn rejects_schedule_set_without_from() {
    assert!(Cli::try_parse_from(&["openlid", "schedule", "set", "--to", "18:00"]).is_err());
}

#[test]
fn rejects_schedule_set_without_to() {
    assert!(Cli::try_parse_from(&["openlid", "schedule", "set", "--from", "08:00"]).is_err());
}

#[test]
fn rejects_schedule_without_subcommand() {
    assert!(Cli::try_parse_from(&["openlid", "schedule"]).is_err());
}

#[test]
fn parses_update_default_flags_all_false() {
    let cli = Cli::try_parse_from(&["openlid", "update"]).unwrap();
    match cli.command {
        Command::Update(a) => {
            assert!(!a.check);
            assert!(!a.yes);
            assert!(!a.json);
        }
        other => panic!("expected Update, got {other:?}"),
    }
}

#[test]
fn parses_update_with_check_flag() {
    let cli = Cli::try_parse_from(&["openlid", "update", "--check"]).unwrap();
    match cli.command {
        Command::Update(a) => {
            assert!(a.check);
            assert!(!a.yes);
            assert!(!a.json);
        }
        other => panic!("expected Update, got {other:?}"),
    }
}

#[test]
fn parses_update_with_yes_flag() {
    let cli = Cli::try_parse_from(&["openlid", "update", "--yes"]).unwrap();
    match cli.command {
        Command::Update(a) => {
            assert!(!a.check);
            assert!(a.yes);
        }
        other => panic!("expected Update, got {other:?}"),
    }
}

#[test]
fn parses_update_with_json_flag() {
    let cli = Cli::try_parse_from(&["openlid", "update", "--json"]).unwrap();
    match cli.command {
        Command::Update(a) => assert!(a.json),
        other => panic!("expected Update, got {other:?}"),
    }
}

#[test]
fn parses_update_with_all_flags() {
    let cli = Cli::try_parse_from(&["openlid", "update", "--check", "--yes", "--json"]).unwrap();
    match cli.command {
        Command::Update(a) => {
            assert!(a.check);
            assert!(a.yes);
            assert!(a.json);
        }
        other => panic!("expected Update, got {other:?}"),
    }
}

#[test]
fn schedule_set_accepts_equals_form_and_any_order() {
    let cli = Cli::try_parse_from(&[
        "openlid", "schedule", "set", "--days=Sat", "--to", "02:00", "--from=22:00",
    ])
    .unwrap();
    match cli.command {
        Command::Schedule(ScheduleArg::SetWindow { from, to, days }) => {
            assert_eq!(from, "22:00");
            assert_eq!(to, "02:00");
            assert_eq!(days.as_deref(), Some("Sat"));
        }
        other => panic!("expected Schedule(SetWindow), got {other:?}"),
    }
}

#[test]
fn repeated_flag_is_rejected() {
    assert!(Cli::try_parse_from(&["openlid", "status", "--json", "--json"]).is_err());
}

#[test]
fn help_and_version_are_reported_as_such() {
    let e = Cli::try_parse_from(&["openlid", "--help"]).unwrap_err();
    assert_eq!(e.kind, CliErrorKind::HelpRequested);
    let e = Cli::try_parse_from(&["openlid", "-V"]).unwrap_err();
    assert_eq!(e.kind, CliErrorKind::VersionRequested);
}

#[test]
fn missing_value_names_the_flag() {
    let e = Cli::try_parse_from(&["openlid", "schedule", "set", "--from"]).unwrap_err();
    assert_eq!(e.arg, "--from");
}
