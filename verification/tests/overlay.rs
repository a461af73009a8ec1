use wayscriber::overlay::{
    desired_keyboard_interactivity_for, should_ignore_xdg_close_request, ActivationRequest,
    ExitAfterCaptureMode, KeyboardInteractivity, OverlaySuppression, StateData, SurfaceLayer,
};
use wayscriber::presentation::PresentationMode;

fn overlay_data() -> StateData {
    StateData::new(PresentationMode::Overlay, ExitAfterCaptureMode::Auto)
}

#[test]
fn ignores_close_only_for_unfocused_stay_with_active_guard() {
    assert!(should_ignore_xdg_close_request(true, false, true));
    assert!(!should_ignore_xdg_close_request(true, true, true));
    assert!(!should_ignore_xdg_close_request(false, false, true));
    assert!(!should_ignore_xdg_close_request(true, false, false));
}

#[test]
fn suppression_enter_and_exit_round_trip() {
    let mut data = overlay_data();
    let before = data.clone();
    let entered = data.enter_overlay_suppression(OverlaySuppression::Capture, true);
    assert!(entered.changed);
    assert_eq!(entered.clickthrough, Some(true));
    assert!(data.overlay_suppressed());
    assert!(data.capture_suppressed());
    assert!(data.overlay_blocks_event_loop());
    assert_eq!(data.current_keyboard_interactivity, Some(KeyboardInteractivity::Disabled));

    // A second suppression does not replace the active one.
    let again = data.enter_overlay_suppression(OverlaySuppression::Frozen, true);
    assert!(!again.changed);
    assert_eq!(data.overlay_suppression, OverlaySuppression::Capture);

    // Leaving a reason that is not active changes nothing.
    let wrong = data.exit_overlay_suppression(OverlaySuppression::Zoom);
    assert!(!wrong.changed);
    assert!(data.overlay_suppressed());

    let left = data.exit_overlay_suppression(OverlaySuppression::Capture);
    assert!(left.changed);
    assert_eq!(left.clickthrough, Some(false));
    assert!(!data.overlay_suppressed());
    assert_eq!(data.overlay_suppression, before.overlay_suppression);
}

#[test]
fn windowed_suppression_never_sets_clickthrough() {
    let mut data = StateData::new(PresentationMode::Windowed, ExitAfterCaptureMode::Never);
    let entered = data.enter_overlay_suppression(OverlaySuppression::Frozen, false);
    assert!(entered.changed);
    assert_eq!(entered.clickthrough, None);
    assert_eq!(data.current_keyboard_interactivity, None);
    let left = data.exit_overlay_suppression(OverlaySuppression::Frozen);
    assert_eq!(left.clickthrough, None);
}

#[test]
fn keyboard_interactivity_follows_suppression_and_toolbars() {
    assert_eq!(
        desired_keyboard_interactivity_for(true, true, false),
        KeyboardInteractivity::OnDemand
    );
    assert_eq!(
        desired_keyboard_interactivity_for(true, true, true),
        KeyboardInteractivity::Exclusive
    );
    assert_eq!(
        desired_keyboard_interactivity_for(false, true, false),
        KeyboardInteractivity::Exclusive
    );

    let mut data = overlay_data();
    assert_eq!(
        data.refresh_keyboard_interactivity(true, true, true, false),
        Some(KeyboardInteractivity::OnDemand)
    );
    // Nothing to apply when it already matches.
    assert_eq!(data.refresh_keyboard_interactivity(true, true, true, false), None);
    data.enter_overlay_suppression(OverlaySuppression::Zoom, true);
    assert_eq!(
        data.desired_keyboard_interactivity(true, true, false),
        KeyboardInteractivity::Disabled
    );
    // Without a layer surface nothing is recorded.
    assert_eq!(data.refresh_keyboard_interactivity(false, true, true, false), None);
    assert_eq!(data.current_keyboard_interactivity, None);
}

#[test]
fn focus_exit_suppression_counts_down_and_saturates() {
    let mut data = overlay_data();
    assert_eq!(data.focus_exit_timeout(10), None);
    data.suppress_focus_exit_for(100, 50);
    assert_eq!(data.focus_exit_timeout(120), Some(30));
    assert_eq!(data.focus_exit_timeout(150), None);
    data.suppress_focus_exit_for(u64::MAX - 1, 10);
    assert_eq!(data.suppress_focus_exit_until, Some(u64::MAX));
    data.clear_focus_exit_suppression();
    assert_eq!(data.suppress_focus_exit_until, None);
}

#[test]
fn keyboard_focus_makes_a_configured_overlay_ready() {
    let mut data = overlay_data();
    data.suppress_focus_exit_for(0, 1000);
    data.keyboard_enter(42, false);
    assert!(data.has_keyboard_focus);
    assert!(!data.overlay_ready);
    assert_eq!(data.last_activation_serial, Some(42));
    assert_eq!(data.suppress_focus_exit_until, None);
    assert!(data.surface_configured());
    assert!(data.overlay_ready);
    assert!(!data.surface_configured());
    data.keyboard_leave();
    assert!(!data.has_keyboard_focus);
    assert!(!data.overlay_ready);
}

#[test]
fn activation_is_deferred_until_a_serial_arrives() {
    let mut data = overlay_data();
    assert_eq!(data.request_xdg_activation(false, true, true), ActivationRequest::Nothing);
    assert_eq!(data.request_xdg_activation(true, true, true), ActivationRequest::Deferred);
    assert_eq!(data.pending_activation_token.as_deref(), Some(""));

    data.current_seat_id = Some(3);
    data.keyboard_enter(77, true);
    let retry = data.maybe_retry_activation(true, true, true);
    assert_eq!(retry, ActivationRequest::RequestToken { seat_id: 3, serial: 77 });
    assert_eq!(data.pending_activation_token, None);
    // Nothing pending: nothing to retry.
    assert_eq!(data.maybe_retry_activation(true, true, true), ActivationRequest::Nothing);
}

#[test]
fn arriving_token_is_used_at_once_when_possible() {
    let mut data = overlay_data();
    assert_eq!(data.new_token("tok".to_string(), true, true, true).as_deref(), Some("tok"));
    assert_eq!(data.pending_activation_token, None);
    assert_eq!(data.new_token("later".to_string(), true, false, true), None);
    assert_eq!(data.pending_activation_token.as_deref(), Some("later"));
}

#[test]
fn startup_token_is_consumed_once() {
    let mut data = StateData::for_startup(
        PresentationMode::Windowed,
        ExitAfterCaptureMode::Auto,
        true,
        false,
        Some("launch".to_string()),
        None,
        false,
        true,
        false,
    );
    assert!(!data.inline_toolbars);
    assert_eq!(data.activate_xdg_window_with_startup_token_if_present(false, true, true), None);
    assert_eq!(
        data.activate_xdg_window_with_startup_token_if_present(true, true, true).as_deref(),
        Some("launch")
    );
    assert_eq!(data.activate_xdg_window_with_startup_token_if_present(true, true, true), None);
}

#[test]
fn startup_uses_inline_toolbars_when_layer_surfaces_would_misbehave() {
    let inline = |layer_shell: bool, force: bool, overlay_layer: bool| {
        StateData::for_startup(
            PresentationMode::Overlay,
            ExitAfterCaptureMode::Auto,
            true,
            false,
            None,
            None,
            overlay_layer,
            layer_shell,
            force,
        )
        .inline_toolbars
    };
    assert!(!inline(true, false, false));
    assert!(inline(false, false, false));
    assert!(inline(true, true, false));
    assert!(inline(true, false, true));
}

#[test]
fn main_surface_layer_follows_the_startup_choice() {
    let mut data = overlay_data();
    assert_eq!(data.main_surface_layer(), SurfaceLayer::Top);
    data.main_surface_uses_overlay_layer = true;
    assert_eq!(data.main_surface_layer(), SurfaceLayer::Overlay);
}

#[test]
fn close_guard_runs_until_its_deadline() {
    let mut data = overlay_data();
    assert!(!data.xdg_close_guard_active(5));
    data.xdg_close_guard_until = Some(10);
    assert!(data.xdg_close_guard_active(9));
    assert!(!data.xdg_close_guard_active(10));
}

#[test]
fn suppression_changes_force_a_redraw_and_dirty_toolbars() {
    let mut data = overlay_data();
    let entered = data.enter_overlay_suppression(OverlaySuppression::Zoom, true);
    assert!(entered.redraw && entered.mark_toolbar_dirty && !entered.refresh_keyboard);
    let again = data.enter_overlay_suppression(OverlaySuppression::Capture, true);
    assert!(!again.redraw && !again.mark_toolbar_dirty);
    let left = data.exit_overlay_suppression(OverlaySuppression::Zoom);
    assert!(left.redraw && left.mark_toolbar_dirty && left.refresh_keyboard);
    let none = data.exit_overlay_suppression(OverlaySuppression::Zoom);
    assert!(!none.redraw && !none.mark_toolbar_dirty && !none.refresh_keyboard);
}

#[test]
fn show_overlay_clears_highlights_and_leaves_capture() {
    let mut data = overlay_data();
    data.enter_overlay_suppression(OverlaySuppression::Capture, true);
    let shown = data.show_overlay();
    assert!(shown.clear_click_highlights);
    assert!(shown.change.changed && shown.change.redraw);
    assert_eq!(data.overlay_suppression, OverlaySuppression::Inactive);
    // A frozen overlay stays frozen.
    data.enter_overlay_suppression(OverlaySuppression::Frozen, true);
    let shown = data.show_overlay();
    assert!(shown.clear_click_highlights && !shown.change.changed);
    assert_eq!(data.overlay_suppression, OverlaySuppression::Frozen);
}

#[test]
fn failed_freeze_start_leaves_the_suppression() {
    let mut data = overlay_data();
    data.enter_overlay_suppression(OverlaySuppression::Frozen, true);
    assert!(data.settle_freeze_start(true).is_none());
    assert_eq!(data.overlay_suppression, OverlaySuppression::Frozen);
    let undo = data.settle_freeze_start(false).unwrap();
    assert!(undo.changed && undo.redraw && undo.refresh_keyboard);
    assert_eq!(data.overlay_suppression, OverlaySuppression::Inactive);
}

#[test]
fn show_overlay_always_forces_a_redraw() {
    let mut data = overlay_data();
    let shown = data.show_overlay();
    assert!(shown.redraw && shown.clear_click_highlights);
    assert!(!shown.change.changed);
    data.enter_overlay_suppression(OverlaySuppression::Capture, true);
    assert!(data.show_overlay().redraw);
}

#[test]
fn entering_the_inactive_reason_keeps_the_overlay_inactive() {
    let mut data = overlay_data();
    let entered = data.enter_overlay_suppression(OverlaySuppression::Inactive, true);
    assert!(entered.changed && entered.redraw);
    assert_eq!(entered.clickthrough, Some(true));
    assert_eq!(data.overlay_suppression, OverlaySuppression::Inactive);
    let left = data.exit_overlay_suppression(OverlaySuppression::Inactive);
    assert!(left.changed);
    assert_eq!(data.overlay_suppression, OverlaySuppression::Inactive);
}
