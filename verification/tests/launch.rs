use wayscriber::cli::Cli;
use wayscriber::launch::{
    exit_after_capture_mode_for, plan_launch, session_override_for, should_detach, LaunchError,
    LaunchPlan,
};
use wayscriber::overlay::ExitAfterCaptureMode;
use wayscriber::presentation::PresentationMode;

fn parse(args: &[&str]) -> Cli {
    Cli::try_parse_from(args).unwrap()
}

#[test]
fn about_and_toggle_come_first() {
    assert_eq!(plan_launch(&parse(&["wayscriber", "--about"]), false, false), Ok(LaunchPlan::About));
    match plan_launch(&parse(&["wayscriber", "--daemon-toggle", "--mode", "whiteboard", "--freeze"]), false, false) {
        Ok(LaunchPlan::DaemonToggle(req)) => {
            assert_eq!(req.mode.as_deref(), Some("whiteboard"));
            assert!(req.freeze);
            assert!(!req.resume_session);
        }
        other => panic!("unexpected plan {:?}", other),
    }
    assert_eq!(plan_launch(&parse(&["wayscriber", "--session-info"]), false, false), Ok(LaunchPlan::SessionCommands));
}

#[test]
fn daemon_and_overlays_need_wayland() {
    assert_eq!(plan_launch(&parse(&["wayscriber", "--daemon"]), false, false), Err(LaunchError::WaylandRequired));
    assert_eq!(plan_launch(&parse(&["wayscriber", "--active"]), false, false), Err(LaunchError::WaylandRequired));
    assert_eq!(plan_launch(&parse(&["wayscriber"]), false, false), Ok(LaunchPlan::Usage));
}

#[test]
fn daemon_plan_carries_tray_and_session_choices() {
    let plan = plan_launch(&parse(&["wayscriber", "--daemon", "--no-resume-session"]), true, true);
    assert_eq!(
        plan,
        Ok(LaunchPlan::Daemon { mode: None, tray_enabled: false, session_override: Some(false), freeze_on_show: false })
    );
}

#[test]
fn overlay_plans() {
    let plan = plan_launch(&parse(&["wayscriber", "--active", "--exit-after-capture"]), true, false);
    assert_eq!(
        plan,
        Ok(LaunchPlan::Overlay {
            mode: None,
            freeze: false,
            presentation: PresentationMode::Overlay,
            exit_after_capture_mode: ExitAfterCaptureMode::Always,
            session_override: None,
            needs_lock: true,
        })
    );
    match plan_launch(&parse(&["wayscriber", "--windowed"]), true, false) {
        Ok(LaunchPlan::Overlay { presentation, needs_lock, .. }) => {
            assert_eq!(presentation, PresentationMode::Windowed);
            assert!(!needs_lock);
        }
        other => panic!("unexpected plan {:?}", other),
    }
}

#[test]
fn session_and_exit_choices() {
    assert_eq!(session_override_for(&parse(&["wayscriber", "--resume-session"])), Some(true));
    assert_eq!(session_override_for(&parse(&["wayscriber"])), None);
    assert_eq!(exit_after_capture_mode_for(&parse(&["wayscriber", "--no-exit-after-capture"])), ExitAfterCaptureMode::Never);
    assert_eq!(exit_after_capture_mode_for(&parse(&["wayscriber"])), ExitAfterCaptureMode::Auto);
}

#[test]
fn only_overlay_launches_detach() {
    assert!(should_detach(&parse(&["wayscriber", "--active"]), false, false));
    assert!(!should_detach(&parse(&["wayscriber", "--active"]), true, false));
    assert!(!should_detach(&parse(&["wayscriber", "--active"]), false, true));
    assert!(!should_detach(&parse(&["wayscriber", "--daemon"]), false, false));
}
