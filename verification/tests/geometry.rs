use wayscriber::geometry::{
    movable_selection_ids, wrap_width_changes, SelectedShape,
    clamp_axis_delta, clamp_selection_translation, clamp_text_wrap_width, edge_move,
    translation_to_apply, union_box, Rect, SelectedBox, TEXT_WRAP_MIN_WIDTH,
};
use wayscriber::interaction::{CancelEffect, InteractionState};
use wayscriber::cursor::DrawingStateKind;

fn rect(x: i32, y: i32, w: i32, h: i32) -> Rect {
    Rect::new(x, y, w, h).unwrap()
}

#[test]
fn rect_constructors_reject_empty_and_overflowing_boxes() {
    assert_eq!(Rect::new(0, 0, 100, 50), Some(Rect { x: 0, y: 0, width: 100, height: 50 }));
    assert_eq!(Rect::new(0, 0, 0, 50), None);
    assert_eq!(Rect::new(i32::MAX - 5, 0, 10, 10), None);
    assert_eq!(Rect::from_min_max(-5, 2, 5, 4), Some(Rect { x: -5, y: 2, width: 10, height: 2 }));
    assert_eq!(Rect::from_min_max(5, 2, 5, 4), None);
    assert_eq!(Rect::from_min_max(i32::MIN, 0, 1, 1), None);
}

#[test]
fn union_box_covers_counted_shapes() {
    let boxes = vec![
        SelectedBox { bounds: Some(rect(10, 20, 30, 40)), locked: false },
        SelectedBox { bounds: Some(rect(0, 50, 5, 5)), locked: true },
        SelectedBox { bounds: None, locked: false },
        SelectedBox { bounds: Some(rect(35, 10, 10, 5)), locked: false },
    ];
    assert_eq!(union_box(&boxes, true), Some(rect(0, 10, 45, 50)));
    assert_eq!(union_box(&boxes, false), Some(rect(10, 10, 35, 50)));
    assert_eq!(union_box(&vec![SelectedBox { bounds: Some(rect(1, 1, 1, 1)), locked: true }], false), None);
    assert_eq!(union_box(&Vec::new(), true), None);
}

#[test]
fn axis_moves_keep_the_span_on_screen() {
    assert_eq!(clamp_axis_delta(10, 20, 100, -50), -10);
    assert_eq!(clamp_axis_delta(10, 20, 100, 500), 70);
    assert_eq!(clamp_axis_delta(10, 20, 100, 5), 5);
    // A span wider than the screen may only move to cover it.
    assert_eq!(clamp_axis_delta(-10, 200, 100, 50), 10);
    assert_eq!(clamp_axis_delta(-10, 200, 100, -500), -90);
    // No screen or no span: unclamped.
    assert_eq!(clamp_axis_delta(10, 20, 0, 999), 999);
}

#[test]
fn selection_moves_are_clamped_per_axis() {
    let b = Some(rect(10, 10, 20, 20));
    assert_eq!(clamp_selection_translation(b, 100, 50, 500, -500), Some((70, -10)));
    assert_eq!(clamp_selection_translation(b, 100, 50, 0, 5), Some((0, 5)));
    assert_eq!(clamp_selection_translation(None, 100, 50, 1, 1), None);
    assert_eq!(translation_to_apply(b, 100, 50, 0, 0), None);
    assert_eq!(translation_to_apply(Some(rect(0, 0, 20, 20)), 100, 50, -5, 0), None);
    assert_eq!(translation_to_apply(b, 100, 50, 3, 4), Some((3, 4)));
}

#[test]
fn edge_moves_go_to_the_screen_edges() {
    assert_eq!(edge_move(30, 20, 100, true), Some(-30));
    assert_eq!(edge_move(30, 20, 100, false), Some(50));
    assert_eq!(edge_move(80, 20, 100, false), None);
    assert_eq!(edge_move(0, 20, 100, true), None);
    assert_eq!(edge_move(5, 20, 0, true), None);
}

#[test]
fn dragging_text_resize_handle_updates_wrap_width_within_screen() {
    // A text box at x = 250 on a 300 pixel wide surface, its handle dragged to x = 1000.
    assert_eq!(clamp_text_wrap_width(250, 1000, TEXT_WRAP_MIN_WIDTH, 300), 50);
}

#[test]
fn wrap_width_respects_the_minimum_when_it_fits() {
    assert_eq!(clamp_text_wrap_width(100, 110, 64, 800), 64);
    assert_eq!(clamp_text_wrap_width(100, 90, 40, 800), 40);
    assert_eq!(clamp_text_wrap_width(790, 900, 40, 800), 10);
    assert_eq!(clamp_text_wrap_width(900, 990, 40, 800), 1);
    assert_eq!(clamp_text_wrap_width(0, 10, 40, 0), 40);
    assert_eq!(clamp_text_wrap_width(0, 300, 40, 0), 300);
}

#[test]
fn update_pointer_position_synthetic_updates_pointer_without_redraw() {
    let mut state = InteractionState::new(usize::MAX);
    state.needs_redraw = false;
    state.update_pointer_position_synthetic(12, 34);
    assert_eq!(state.pointer_position(), (12, 34));
    assert!(!state.needs_redraw);
}

#[test]
fn set_undo_stack_limit_clamps_to_at_least_one() {
    let mut state = InteractionState::new(usize::MAX);
    state.set_undo_stack_limit(0);
    assert_eq!(state.undo_stack_limit, 1);
    state.set_undo_stack_limit(25);
    assert_eq!(state.undo_stack_limit, 25);
}

#[test]
fn cancel_text_input_clears_wrap_width_and_returns_to_idle() {
    let mut state = InteractionState::new(10);
    state.text_wrap_width = Some(240);
    state.drawing = DrawingStateKind::TextInput;
    state.needs_redraw = false;
    state.cancel_text_input();
    assert_eq!(state.drawing, DrawingStateKind::Idle);
    assert!(state.text_wrap_width.is_none());
    assert!(state.needs_redraw);
}

#[test]
fn cancelling_reports_what_to_undo() {
    let mut state = InteractionState::new(10);
    state.update_surface_dimensions(100, 50);
    assert_eq!((state.surface_width, state.surface_height), (100, 50));
    assert_eq!(state.cancel_active_interaction(), CancelEffect::Nothing);
    state.drawing = DrawingStateKind::Selecting;
    assert_eq!(state.cancel_active_interaction(), CancelEffect::ClearProvisional);
    assert!(state.needs_redraw);
    state.drawing = DrawingStateKind::ResizingText;
    assert_eq!(state.cancel_active_interaction(), CancelEffect::RestoreSnapshots);
    state.text_wrap_width = Some(5);
    state.drawing = DrawingStateKind::TextInput;
    assert_eq!(state.cancel_active_interaction(), CancelEffect::EndTextInput);
    assert_eq!(state.text_wrap_width, None);
    assert_eq!(state.drawing, DrawingStateKind::Idle);
}

#[test]
fn only_present_unlocked_shapes_move() {
    let shapes = vec![
        SelectedShape { id: 1, present: true, locked: false },
        SelectedShape { id: 2, present: true, locked: true },
        SelectedShape { id: 3, present: false, locked: false },
        SelectedShape { id: 4, present: true, locked: false },
    ];
    assert_eq!(movable_selection_ids(&shapes), vec![1, 4]);
    assert!(movable_selection_ids(&Vec::new()).is_empty());
}

#[test]
fn wrap_width_updates_only_unlocked_text_with_a_new_width() {
    assert!(wrap_width_changes(true, false, true, None, 50));
    assert!(wrap_width_changes(true, false, true, Some(40), 50));
    assert!(!wrap_width_changes(true, false, true, Some(50), 50));
    assert!(!wrap_width_changes(true, true, true, None, 50));
    assert!(!wrap_width_changes(true, false, false, None, 50));
    assert!(!wrap_width_changes(false, false, true, None, 50));
}

#[test]
fn update_pointer_position_redraws_only_when_the_tool_ring_moved() {
    let mut state = InteractionState::new(10);
    state.update_pointer_position(5, 6, false);
    assert_eq!(state.pointer_position(), (5, 6));
    assert!(!state.needs_redraw);
    state.update_pointer_position(7, 8, true);
    assert_eq!(state.pointer_position(), (7, 8));
    assert!(state.needs_redraw);
    state.update_pointer_position(9, 9, false);
    assert!(state.needs_redraw);
}
