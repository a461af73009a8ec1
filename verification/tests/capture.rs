use wayscriber::capture::{
    capture_action_notice, capture_notification_body, capture_result_plan,
    completed_capture_suppressions, frozen_toggle_notice, handle_frozen_toggle,
    should_exit_after_capture, CaptureAction, CaptureActionOutcome, CaptureConfig,
    CaptureDestination, CaptureFlow, CaptureOutcome, CaptureResultPlan, CaptureType,
    FrozenToggle, ToastAction,
};
use wayscriber::overlay::StateData;
use wayscriber::selection::UiToastKind;
use wayscriber::overlay::{ExitAfterCaptureMode, OverlaySuppression};
use wayscriber::presentation::PresentationMode;

fn config(copy: bool) -> CaptureConfig {
    CaptureConfig {
        enabled: true,
        copy_to_clipboard: copy,
        save_directory: "/tmp/shots".to_string(),
        filename_template: "shot-%Y".to_string(),
        format: "png".to_string(),
    }
}

#[test]
fn exit_after_capture_modes() {
    assert!(should_exit_after_capture(ExitAfterCaptureMode::Always, CaptureDestination::FileOnly));
    assert!(!should_exit_after_capture(ExitAfterCaptureMode::Never, CaptureDestination::ClipboardOnly));
    assert!(should_exit_after_capture(ExitAfterCaptureMode::Auto, CaptureDestination::ClipboardOnly));
    assert!(!should_exit_after_capture(ExitAfterCaptureMode::Auto, CaptureDestination::ClipboardAndFile));
}

#[test]
fn capture_is_refused_in_order() {
    let mut flow = CaptureFlow::new();
    assert_eq!(
        flow.handle_capture_action(PresentationMode::Windowed, ExitAfterCaptureMode::Auto, &config(true), CaptureAction::CaptureFullScreen),
        CaptureActionOutcome::BlockedWindowed
    );
    let mut disabled = config(true);
    disabled.enabled = false;
    assert_eq!(
        flow.handle_capture_action(PresentationMode::Overlay, ExitAfterCaptureMode::Auto, &disabled, CaptureAction::CaptureFullScreen),
        CaptureActionOutcome::Disabled
    );
    assert!(!flow.is_in_progress());
    assert_eq!(
        flow.handle_capture_action(PresentationMode::Overlay, ExitAfterCaptureMode::Auto, &config(true), CaptureAction::CaptureFullScreen),
        CaptureActionOutcome::Queued
    );
    assert_eq!(
        flow.handle_capture_action(PresentationMode::Overlay, ExitAfterCaptureMode::Auto, &config(true), CaptureAction::CaptureFileFull),
        CaptureActionOutcome::Busy
    );
}

#[test]
fn queued_capture_carries_target_and_save_settings() {
    let mut flow = CaptureFlow::new();
    flow.handle_capture_action(PresentationMode::Overlay, ExitAfterCaptureMode::Auto, &config(true), CaptureAction::CaptureSelection);
    assert!(flow.in_progress);
    assert!(!flow.exit_on_success);
    let req = flow.take_preflight().expect("queued");
    assert_eq!(req.capture_type, CaptureType::Selection { x: 0, y: 0, width: 0, height: 0 });
    assert_eq!(req.destination, CaptureDestination::ClipboardAndFile);
    let save = req.save_config.expect("saves a file");
    assert_eq!(save.save_directory, "/tmp/shots");
    assert_eq!(save.format, "png");
    assert!(flow.take_preflight().is_none());

    let mut flow = CaptureFlow::new();
    flow.handle_capture_action(PresentationMode::Overlay, ExitAfterCaptureMode::Auto, &config(false), CaptureAction::CaptureClipboardRegion);
    assert!(flow.exit_on_success);
    let req = flow.take_preflight().expect("queued");
    assert_eq!(req.destination, CaptureDestination::ClipboardOnly);
    assert!(req.save_config.is_none());

    let mut flow = CaptureFlow::new();
    flow.handle_capture_action(PresentationMode::Overlay, ExitAfterCaptureMode::Never, &config(false), CaptureAction::CaptureActiveWindow);
    let req = flow.take_preflight().expect("queued");
    assert_eq!(req.capture_type, CaptureType::ActiveWindow);
    assert_eq!(req.destination, CaptureDestination::FileOnly);
}

#[test]
fn failed_request_and_result_leave_the_flow_idle() {
    let mut flow = CaptureFlow::new();
    flow.handle_capture_action(PresentationMode::Overlay, ExitAfterCaptureMode::Always, &config(true), CaptureAction::CaptureFullScreen);
    assert_eq!(flow.capture_request_failed(), OverlaySuppression::Capture);
    assert!(!flow.in_progress && !flow.exit_on_success && flow.preflight.is_none());

    flow.handle_capture_action(PresentationMode::Overlay, ExitAfterCaptureMode::Always, &config(true), CaptureAction::CaptureFullScreen);
    assert!(flow.finish());
    assert!(!flow.in_progress);
    assert!(!flow.finish());
}

#[test]
fn notification_body_joins_what_happened() {
    assert_eq!(capture_notification_body(&Some("a.png".to_string()), true), "Saved as a.png - Copied to clipboard");
    assert_eq!(capture_notification_body(&Some("a.png".to_string()), false), "Saved as a.png");
    assert_eq!(capture_notification_body(&None, true), "Copied to clipboard");
    assert_eq!(capture_notification_body(&None, false), "Screenshot captured");
}

#[test]
fn result_plan_exits_only_on_real_success() {
    let cfg = config(true);
    let ok = CaptureOutcome::Success {
        saved_file_name: Some("s.png".to_string()),
        saved: true,
        copied_to_clipboard: false,
        image_data: vec![1, 2, 3],
    };
    match capture_result_plan(ok, true, &cfg) {
        CaptureResultPlan::Captured { body, exit } => {
            assert_eq!(body, "Saved as s.png");
            assert!(exit);
        }
        _ => panic!("expected a capture"),
    }
    let clipboard_failed = CaptureOutcome::Success {
        saved_file_name: None,
        saved: false,
        copied_to_clipboard: false,
        image_data: vec![9, 8],
    };
    match capture_result_plan(clipboard_failed, true, &cfg) {
        CaptureResultPlan::ClipboardFailed { image_data, save_config, exit_after_save, toast, action_label, action } => {
            assert_eq!(image_data, vec![9, 8]);
            assert_eq!(save_config.save_directory, cfg.save_directory);
            assert_eq!(save_config.filename_template, cfg.filename_template);
            assert_eq!(save_config.format, cfg.format);
            assert!(exit_after_save);
            assert_eq!(toast.kind, UiToastKind::Error);
            assert_eq!(toast.message, "Clipboard failed");
            assert_eq!(action_label, "Save to file");
            assert_eq!(action, ToastAction::SavePendingToFile);
        }
        _ => panic!("expected a clipboard fallback"),
    }
    let empty = CaptureOutcome::Success {
        saved_file_name: None,
        saved: false,
        copied_to_clipboard: false,
        image_data: vec![],
    };
    match capture_result_plan(empty, false, &cfg) {
        CaptureResultPlan::Captured { body, exit } => {
            assert_eq!(body, "Screenshot captured");
            assert!(!exit);
        }
        _ => panic!("expected a capture"),
    }
    match capture_result_plan(CaptureOutcome::Failed { message: "Portal refused".to_string() }, true, &cfg) {
        CaptureResultPlan::Failed { toast } => {
            assert_eq!(toast.kind, UiToastKind::Error);
            assert_eq!(toast.message, "Portal refused");
        }
        _ => panic!("expected a failure"),
    }
    assert!(matches!(capture_result_plan(CaptureOutcome::Cancelled, true, &cfg), CaptureResultPlan::Cancelled));
}

#[test]
fn handling_a_result_resets_the_flow_and_restores_the_overlay() {
    let cfg = config(false);
    let mut flow = CaptureFlow::new();
    let mut data = StateData::new(PresentationMode::Overlay, ExitAfterCaptureMode::Always);
    assert_eq!(
        flow.handle_capture_action(PresentationMode::Overlay, ExitAfterCaptureMode::Always, &cfg, CaptureAction::CaptureFileFull),
        CaptureActionOutcome::Queued
    );
    data.enter_overlay_suppression(OverlaySuppression::Capture, true);
    let ok = CaptureOutcome::Success {
        saved_file_name: Some("x.png".to_string()),
        saved: true,
        copied_to_clipboard: false,
        image_data: vec![1],
    };
    let step = flow.handle_capture_result(&mut data, ok, &cfg);
    assert!(step.exit);
    assert!(step.show.clear_click_highlights);
    assert!(step.show.change.changed && step.show.change.redraw);
    assert_eq!(data.overlay_suppression, OverlaySuppression::Inactive);
    assert!(!flow.is_in_progress());

    flow.handle_capture_action(PresentationMode::Overlay, ExitAfterCaptureMode::Always, &cfg, CaptureAction::CaptureFileFull);
    data.enter_overlay_suppression(OverlaySuppression::Capture, true);
    let step = flow.handle_capture_result(&mut data, CaptureOutcome::Failed { message: "boom".to_string() }, &cfg);
    assert!(!step.exit);
    assert!(!flow.exit_on_success);
    assert_eq!(data.overlay_suppression, OverlaySuppression::Inactive);
}

#[test]
fn windowed_refusals_carry_their_toasts() {
    let n = capture_action_notice(CaptureActionOutcome::BlockedWindowed).unwrap();
    assert_eq!(n.toast.kind, UiToastKind::Info);
    assert_eq!(n.toast.message, "Screen capture is disabled in windowed mode");
    assert!(n.blocked_feedback);
    assert!(capture_action_notice(CaptureActionOutcome::Busy).is_none());
    let f = frozen_toggle_notice(FrozenToggle::BlockedWindowed).unwrap();
    assert_eq!(f.toast.kind, UiToastKind::Info);
    assert_eq!(f.toast.message, "Freeze mode is disabled in windowed mode");
    assert!(f.blocked_feedback);
    assert!(frozen_toggle_notice(FrozenToggle::Unfreeze).is_none());
}

#[test]
fn freeze_toggle_decisions() {
    let m = PresentationMode::Overlay;
    assert_eq!(handle_frozen_toggle(false, m, true, false, false, true), FrozenToggle::NoRequest);
    assert_eq!(handle_frozen_toggle(true, PresentationMode::Windowed, true, false, false, true), FrozenToggle::BlockedWindowed);
    assert_eq!(handle_frozen_toggle(true, m, false, false, false, true), FrozenToggle::Unsupported);
    assert_eq!(handle_frozen_toggle(true, m, true, true, false, true), FrozenToggle::Busy);
    assert_eq!(handle_frozen_toggle(true, m, true, false, true, true), FrozenToggle::Unfreeze);
    assert_eq!(handle_frozen_toggle(true, m, true, false, false, true), FrozenToggle::Start { use_portal_fallback: false });
    assert_eq!(handle_frozen_toggle(true, m, true, false, false, false), FrozenToggle::Start { use_portal_fallback: true });
}

#[test]
fn completed_captures_release_their_suppressions_in_order() {
    assert_eq!(completed_capture_suppressions(true, true), vec![OverlaySuppression::Frozen, OverlaySuppression::Zoom]);
    assert_eq!(completed_capture_suppressions(false, true), vec![OverlaySuppression::Zoom]);
    assert!(completed_capture_suppressions(false, false).is_empty());
}
