use wayscriber::color::ColorPickerCursorHint;
use wayscriber::command_palette::CommandPaletteCursorHint;
use wayscriber::cursor::{
    compute_cursor_icon, BoardPickerCursorHint, CursorContext, CursorIcon, DrawingStateKind,
    PointerCursorAction, PointerCursorState, SelectionHandle, ToolbarCursorHint,
};

fn idle() -> CursorContext {
    CursorContext {
        color_picker: None,
        color_picker_dragging: false,
        board_picker: None,
        context_menu: None,
        command_palette: None,
        help_overlay: None,
        toolbar_dragging: false,
        inline_toolbar: None,
        toolbar_hover: false,
        layer_toolbar: None,
        drawing: DrawingStateKind::Idle,
        hovered_handle: None,
        over_text_resize_handle: false,
        over_selected_shape: false,
    }
}

#[test]
fn idle_canvas_shows_a_crosshair() {
    assert_eq!(compute_cursor_icon(&idle()), CursorIcon::Crosshair);
}

#[test]
fn popups_take_priority_in_order() {
    let mut c = idle();
    c.command_palette = Some(CommandPaletteCursorHint::Pointer);
    c.board_picker = Some(BoardPickerCursorHint::Grab);
    assert_eq!(compute_cursor_icon(&c), CursorIcon::Grab);
    c.color_picker = Some(ColorPickerCursorHint::Text);
    assert_eq!(compute_cursor_icon(&c), CursorIcon::Text);
    c.color_picker_dragging = true;
    assert_eq!(compute_cursor_icon(&c), CursorIcon::Crosshair);
}

#[test]
fn toolbars_decide_over_the_canvas() {
    let mut c = idle();
    c.drawing = DrawingStateKind::TextInput;
    c.toolbar_hover = true;
    assert_eq!(compute_cursor_icon(&c), CursorIcon::Default);
    c.layer_toolbar = Some(ToolbarCursorHint::Grab);
    assert_eq!(compute_cursor_icon(&c), CursorIcon::Grab);
    c.inline_toolbar = Some(ToolbarCursorHint::Pointer);
    assert_eq!(compute_cursor_icon(&c), CursorIcon::Pointer);
    c.toolbar_dragging = true;
    assert_eq!(compute_cursor_icon(&c), CursorIcon::Grabbing);
}

#[test]
fn drawing_states_and_handles_pick_resize_cursors() {
    let mut c = idle();
    c.drawing = DrawingStateKind::ResizingSelection(SelectionHandle::TopRight);
    assert_eq!(compute_cursor_icon(&c), CursorIcon::NeswResize);
    c.drawing = DrawingStateKind::MovingSelection;
    assert_eq!(compute_cursor_icon(&c), CursorIcon::Grabbing);
    c.drawing = DrawingStateKind::PendingTextClick;
    assert_eq!(compute_cursor_icon(&c), CursorIcon::Default);

    let mut c = idle();
    c.over_selected_shape = true;
    assert_eq!(compute_cursor_icon(&c), CursorIcon::Grab);
    c.over_text_resize_handle = true;
    assert_eq!(compute_cursor_icon(&c), CursorIcon::SeResize);
    c.hovered_handle = Some(SelectionHandle::Left);
    assert_eq!(compute_cursor_icon(&c), CursorIcon::EwResize);
    c.hovered_handle = Some(SelectionHandle::BottomRight);
    assert_eq!(compute_cursor_icon(&c), CursorIcon::NwseResize);
}

#[test]
fn pointer_cursor_updates_only_when_the_shape_changes() {
    let mut state = PointerCursorState { hidden: false, current_shape: None };
    let c = idle();
    assert_eq!(
        state.update_pointer_cursor(&c, false, true),
        PointerCursorAction::Apply(CursorIcon::Crosshair)
    );
    state.mark_shape_set(CursorIcon::Crosshair);
    assert_eq!(state.update_pointer_cursor(&c, false, true), PointerCursorAction::Keep);
    assert_eq!(state.update_pointer_cursor(&c, false, false), PointerCursorAction::Keep);

    let mut dragging = idle();
    dragging.toolbar_dragging = true;
    assert_eq!(state.update_pointer_cursor(&dragging, true, true), PointerCursorAction::Hide);
    state.mark_hidden();
    // Revealing forgets the old shape, so it is set again.
    assert_eq!(
        state.update_pointer_cursor(&c, false, true),
        PointerCursorAction::Apply(CursorIcon::Crosshair)
    );
    assert!(!state.hidden);
}
