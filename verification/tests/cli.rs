use wayscriber::cli::{ArgId, Cli, CliError};

#[test]
fn active_mode_with_explicit_board_id() {
    let cli = Cli::try_parse_from(&["wayscriber", "--active", "--mode", "whiteboard"]).unwrap();
    assert!(cli.active);
    assert_eq!(cli.mode.as_deref(), Some("whiteboard"));
}

#[test]
fn daemon_mode_accepts_freeze_on_show() {
    let cli = Cli::try_parse_from(&["wayscriber", "--daemon", "--freeze-on-show"]).unwrap();
    assert!(cli.daemon);
    assert!(cli.freeze_on_show);
}

#[test]
fn daemon_toggle_accepts_overlay_launch_args() {
    let cli = Cli::try_parse_from(&[
        "wayscriber",
        "--daemon-toggle",
        "--freeze",
        "--mode",
        "whiteboard",
        "--exit-after-capture",
        "--resume-session",
    ])
    .unwrap();
    assert!(cli.daemon_toggle);
    assert!(cli.freeze);
    assert_eq!(cli.mode.as_deref(), Some("whiteboard"));
    assert!(cli.exit_after_capture);
    assert!(cli.resume_session);
}

#[test]
fn cli_conflicting_flags_fail() {
    let result = Cli::try_parse_from(&["wayscriber", "--active", "--clear-session"]);
    assert!(
        result.is_err(),
        "expected conflicting flags (--active and --clear-session) to error"
    );
}

#[test]
fn freeze_on_show_requires_daemon() {
    let result = Cli::try_parse_from(&["wayscriber", "--freeze-on-show"]);
    assert!(
        result.is_err(),
        "expected --freeze-on-show without --daemon to error"
    );
}

#[test]
fn windowed_parses_alone() {
    let cli = Cli::try_parse_from(&["wayscriber", "--windowed"]).unwrap();
    assert!(cli.windowed);
}

#[test]
fn windowed_short_flag_parses() {
    let cli = Cli::try_parse_from(&["wayscriber", "-w"]).unwrap();
    assert!(cli.windowed);
}

#[test]
fn windowed_accepts_mode_and_active() {
    let cli = Cli::try_parse_from(&[
        "wayscriber",
        "--windowed",
        "--active",
        "--mode",
        "whiteboard",
    ])
    .unwrap();
    assert!(cli.windowed);
    assert!(cli.active);
    assert_eq!(cli.mode.as_deref(), Some("whiteboard"));
}

#[test]
fn windowed_conflicts_with_daemon() {
    let result = Cli::try_parse_from(&["wayscriber", "--windowed", "--daemon"]);
    assert!(result.is_err());
}

#[test]
fn windowed_conflicts_with_freeze() {
    let result = Cli::try_parse_from(&["wayscriber", "--windowed", "--freeze"]);
    assert!(result.is_err());
}

#[test]
fn windowed_conflicts_with_exit_after_capture() {
    let result = Cli::try_parse_from(&["wayscriber", "--windowed", "--exit-after-capture"]);
    assert!(result.is_err());
}

#[test]
fn conflict_error_names_both_arguments() {
    match Cli::try_parse_from(&["wayscriber", "--active", "--clear-session"]) {
        Err(CliError::ArgumentConflict(a, b)) => {
            assert!(
                (a == ArgId::Active && b == ArgId::ClearSession)
                    || (a == ArgId::ClearSession && b == ArgId::Active)
            );
        }
        other => panic!("unexpected result {:?}", other),
    }
}

#[test]
fn freeze_on_show_reports_missing_daemon() {
    assert!(matches!(
        Cli::try_parse_from(&["wayscriber", "--freeze-on-show"]),
        Err(CliError::MissingRequired(ArgId::FreezeOnShow, ArgId::Daemon))
    ));
}

#[test]
fn repeated_flag_conflicts_with_itself() {
    assert!(matches!(
        Cli::try_parse_from(&["wayscriber", "--active", "-a"]),
        Err(CliError::ArgumentConflict(ArgId::Active, ArgId::Active))
    ));
}

#[test]
fn mode_value_forms() {
    let cli = Cli::try_parse_from(&["wayscriber", "--mode=blackboard"]).unwrap();
    assert_eq!(cli.mode.as_deref(), Some("blackboard"));
    let cli = Cli::try_parse_from(&["wayscriber", "-mwhiteboard"]).unwrap();
    assert_eq!(cli.mode.as_deref(), Some("whiteboard"));
    let cli = Cli::try_parse_from(&["wayscriber", "-m=x"]).unwrap();
    assert_eq!(cli.mode.as_deref(), Some("x"));
    let cli = Cli::try_parse_from(&["wayscriber", "-am", "transparent"]).unwrap();
    assert!(cli.active);
    assert_eq!(cli.mode.as_deref(), Some("transparent"));
}

#[test]
fn mode_without_value_fails() {
    assert!(matches!(
        Cli::try_parse_from(&["wayscriber", "--mode"]),
        Err(CliError::MissingValue)
    ));
    assert!(matches!(
        Cli::try_parse_from(&["wayscriber", "--mode", "--active"]),
        Err(CliError::MissingValue)
    ));
}

#[test]
fn unknown_and_positional_arguments_fail() {
    match Cli::try_parse_from(&["wayscriber", "--nope"]) {
        Err(CliError::UnknownArgument(s)) => assert_eq!(s, "--nope"),
        other => panic!("unexpected result {:?}", other),
    }
    match Cli::try_parse_from(&["wayscriber", "-x"]) {
        Err(CliError::UnknownArgument(s)) => assert_eq!(s, "-x"),
        other => panic!("unexpected result {:?}", other),
    }
    match Cli::try_parse_from(&["wayscriber", "stray"]) {
        Err(CliError::UnexpectedArgument(s)) => assert_eq!(s, "stray"),
        other => panic!("unexpected result {:?}", other),
    }
    match Cli::try_parse_from(&["wayscriber", "--daemon=yes"]) {
        Err(CliError::UnneededValue(s)) => assert_eq!(s, "--daemon=yes"),
        other => panic!("unexpected result {:?}", other),
    }
}

#[test]
fn help_and_version_requests() {
    assert!(matches!(
        Cli::try_parse_from(&["wayscriber", "--help"]),
        Err(CliError::DisplayHelp)
    ));
    assert!(matches!(
        Cli::try_parse_from(&["wayscriber", "-V"]),
        Err(CliError::DisplayVersion)
    ));
}

#[test]
fn empty_command_line_sets_nothing() {
    let cli = Cli::try_parse_from(&["wayscriber"]).unwrap();
    assert!(!cli.daemon && !cli.active && !cli.windowed && cli.mode.is_none());
    let cli = Cli::try_parse_from(&["wayscriber", "--"]).unwrap();
    assert!(!cli.about);
}
