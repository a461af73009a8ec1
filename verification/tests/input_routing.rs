use wayscriber::keys::{
    highlight_prefs_changed, zoom_press_action, zoom_repeat_action, Key, PanDirection,
    ZoomKeyAction,
};
use wayscriber::pointer::{
    after_inline_press, press_gate, press_target, toolbar_press_locks_pointer, MouseButton,
    PressGate, PressTarget, BTN_LEFT, BTN_MIDDLE, BTN_RIGHT,
};
use wayscriber::tablet::{
    final_thickness, PenButtonBindings, StylusDown, StylusMotion, StylusState, StylusUp, BTN_STYLUS,
    BTN_STYLUS2,
};

#[test]
fn press_gate_blocks_tours_and_routes_palette_clicks() {
    assert_eq!(press_gate(true, true, true, BTN_LEFT), PressGate::Ignore);
    assert_eq!(press_gate(false, true, true, BTN_LEFT), PressGate::PaletteClick);
    assert_eq!(press_gate(false, true, false, BTN_RIGHT), PressGate::Ignore);
    assert_eq!(press_gate(false, false, true, BTN_RIGHT), PressGate::TryInline);
    assert_eq!(press_gate(false, false, false, BTN_RIGHT), PressGate::Route);
}

#[test]
fn inline_toolbars_keep_presses_over_them() {
    assert!(!after_inline_press(BTN_LEFT, true, false));
    assert!(!after_inline_press(BTN_RIGHT, false, true));
    assert!(after_inline_press(BTN_RIGHT, true, false));
    assert!(after_inline_press(BTN_LEFT, false, false));
}

#[test]
fn press_targets() {
    assert_eq!(press_target(true, false, false, false, BTN_LEFT), PressTarget::ToolbarPress);
    assert_eq!(press_target(true, false, false, false, BTN_RIGHT), PressTarget::ToolbarIgnore);
    assert_eq!(press_target(false, true, false, false, BTN_LEFT), PressTarget::EndToolbarDrag);
    assert_eq!(press_target(false, false, true, false, BTN_MIDDLE), PressTarget::ZoomPan);
    assert_eq!(
        press_target(false, false, true, true, BTN_MIDDLE),
        PressTarget::Mouse(MouseButton::Middle)
    );
    assert_eq!(press_target(false, false, false, false, BTN_RIGHT), PressTarget::Mouse(MouseButton::Right));
    assert_eq!(press_target(false, false, false, false, 0x113), PressTarget::Ignore);
    assert!(toolbar_press_locks_pointer(true, true));
    assert!(!toolbar_press_locks_pointer(true, false));
}

#[test]
fn zoom_keys_on_press() {
    assert_eq!(zoom_press_action(false, true, false, Key::Escape, false), ZoomKeyAction::PassOn);
    assert_eq!(zoom_press_action(true, false, false, Key::Escape, false), ZoomKeyAction::ExitZoom);
    assert_eq!(zoom_press_action(true, false, false, Key::Up, false), ZoomKeyAction::Ignore);
    assert_eq!(zoom_press_action(true, true, true, Key::Up, false), ZoomKeyAction::Ignore);
    assert_eq!(
        zoom_press_action(true, true, false, Key::Left, true),
        ZoomKeyAction::Pan { direction: PanDirection::Left, large: true }
    );
    assert_eq!(zoom_press_action(true, true, false, Key::Char('a'), false), ZoomKeyAction::PassOn);
}

#[test]
fn zoom_keys_on_repeat() {
    assert_eq!(zoom_repeat_action(true, false, Key::Escape, false), ZoomKeyAction::PassOn);
    assert_eq!(zoom_repeat_action(true, true, Key::Down, false), ZoomKeyAction::Ignore);
    assert_eq!(
        zoom_repeat_action(true, false, Key::Down, false),
        ZoomKeyAction::Pan { direction: PanDirection::Down, large: false }
    );
    assert_eq!(zoom_repeat_action(false, false, Key::Down, false), ZoomKeyAction::PassOn);
}

#[test]
fn pan_moves_against_the_arrow() {
    assert_eq!(PanDirection::Up.delta_signs(), (0, 1));
    assert_eq!(PanDirection::Down.delta_signs(), (0, -1));
    assert_eq!(PanDirection::Left.delta_signs(), (1, 0));
    assert_eq!(PanDirection::Right.delta_signs(), (-1, 0));
}

#[test]
fn highlight_prefs_are_saved_unless_presenter_mode_flipped() {
    assert!(highlight_prefs_changed((false, false, false), (true, false, false)));
    assert!(!highlight_prefs_changed((false, false, false), (true, false, true)));
    assert!(!highlight_prefs_changed((true, true, false), (true, true, false)));
}

#[test]
fn stylus_switches_to_the_eraser_and_back() {
    let mut s: StylusState<u8> = StylusState::new();
    assert_eq!(s.proximity_in(true, false, true, true, false, Some(3), 9), Some(Some(9)));
    assert!(s.auto_switched_to_eraser);
    assert_eq!(s.proximity_out(), Some(Some(3)));
    assert!(!s.auto_switched_to_eraser);
    assert_eq!(s.proximity_out(), None);
    assert_eq!(s.proximity_in(true, false, false, true, false, None, 9), None);
    assert_eq!(s.proximity_in(true, false, true, true, true, None, 9), None);
}

#[test]
fn stylus_taps_reach_the_canvas_only_on_the_overlay() {
    let mut s: StylusState<u8> = StylusState::new();
    assert_eq!(s.stylus_down(false, false), StylusDown::Ignore);
    s.proximity_in(true, false, false, false, false, None, 0);
    assert_eq!(s.stylus_down(true, false), StylusDown::TryInline);
    assert_eq!(s.stylus_down(true, true), StylusDown::Draw);
    assert!(s.tip_down);
    assert_eq!(s.stylus_up(false), StylusUp::Draw);
    assert!(!s.tip_down);
    s.inline_press_taken();
    assert_eq!(s.stylus_down(false, false), StylusDown::ToolbarPress);
    assert_eq!(s.stylus_up(false), StylusUp::EndToolbarDrag);
    assert_eq!(s.stylus_up(true), StylusUp::InlineRelease);
    assert!(!s.on_toolbar);
}

#[test]
fn final_thickness_prefers_the_peak() {
    assert_eq!(final_thickness(Some(5.0), Some(3.0), Some(1.0)), Some(5.0));
    assert_eq!(final_thickness(None, Some(3.0), Some(1.0)), Some(3.0));
    assert_eq!(final_thickness::<f64>(None, None, Some(1.0)), Some(1.0));
    assert_eq!(final_thickness::<f64>(None, None, None), None);
}

#[test]
fn stylus_motion_is_routed_to_drags_toolbars_then_drawing() {
    let mut s: StylusState<u8> = StylusState::new();
    assert_eq!(s.motion_route(false, false), StylusMotion::Ignore);
    s.on_overlay = true;
    assert_eq!(s.motion_route(true, true), StylusMotion::MoveDrag { toolbar_local: false });
    assert_eq!(s.motion_route(false, true), StylusMotion::TryInline);
    assert_eq!(s.motion_route(false, false), StylusMotion::Draw);
    assert!(!s.inline_motion_result(true));
    assert!(s.on_toolbar);
    assert_eq!(s.motion_route(false, true), StylusMotion::Toolbar);
    assert_eq!(s.motion_route(true, true), StylusMotion::MoveDrag { toolbar_local: true });
    assert!(s.inline_motion_result(false));
    assert!(!s.on_toolbar);
}

#[test]
fn pen_buttons_run_their_bound_actions_on_press() {
    let b = PenButtonBindings { button1: Some(7u8), button2: None };
    assert_eq!(b.action_for(BTN_STYLUS, true), Some(7));
    assert_eq!(b.action_for(BTN_STYLUS, false), None);
    assert_eq!(b.action_for(BTN_STYLUS2, true), None);
    assert_eq!(b.action_for(0x110, true), None);
}
