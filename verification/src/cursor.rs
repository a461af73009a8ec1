//! Which pointer cursor the overlay shows, from the popups, toolbars and drawing state
//! under the pointer.
use vstd::prelude::*;
use crate::color::ColorPickerCursorHint;
use crate::command_palette::CommandPaletteCursorHint;
use crate::help_overlay::HelpOverlayCursorHint;

verus! {

/// Cursor shapes the overlay uses.
#[derive(Debug, Clone, Copy, PartialEq, Eq, Structural)]
pub enum CursorIcon {
    Default,
    Text,
    Crosshair,
    Pointer,
    Grab,
    Grabbing,
    SeResize,
    NwseResize,
    NeswResize,
    NsResize,
    EwResize,
}

/// Cursor hint of the board picker.
#[derive(Debug, Clone, Copy, PartialEq, Eq, Structural)]
pub enum BoardPickerCursorHint {
    Text,
    Pointer,
    Grab,
    Grabbing,
    Default,
}

/// Cursor hint of the context menu.
#[derive(Debug, Clone, Copy, PartialEq, Eq, Structural)]
pub enum ContextMenuCursorHint {
    Pointer,
    Default,
}

/// Cursor hint of a toolbar control.
#[derive(Debug, Clone, Copy, PartialEq, Eq, Structural)]
pub enum ToolbarCursorHint {
    Pointer,
    Grab,
    Crosshair,
    Default,
}

/// A resize handle of the selection box.
#[derive(Debug, Clone, Copy, PartialEq, Eq, Structural)]
pub enum SelectionHandle {
    TopLeft,
    Top,
    TopRight,
    Right,
    BottomRight,
    Bottom,
    BottomLeft,
    Left,
}

/// What the drawing state machine is doing, as far as the cursor cares.
#[derive(Debug, Clone, Copy, PartialEq, Eq, Structural)]
pub enum DrawingStateKind {
    Idle,
    TextInput,
    MovingSelection,
    ResizingText,
    Drawing,
    Selecting,
    PendingTextClick,
    ResizingSelection(SelectionHandle),
}

/// Everything under the pointer that the cursor depends on. Each popup hint is present
/// only when that popup is open and reports a hint at the pointer.
#[derive(Debug, Clone, Copy, PartialEq, Eq, Structural)]
pub struct CursorContext {
    /// Hint of the colour picker popup (open, with a layout).
    pub color_picker: Option<ColorPickerCursorHint>,
    /// Whether the colour picker's gradient is being dragged.
    pub color_picker_dragging: bool,
    pub board_picker: Option<BoardPickerCursorHint>,
    pub context_menu: Option<ContextMenuCursorHint>,
    pub command_palette: Option<CommandPaletteCursorHint>,
    pub help_overlay: Option<HelpOverlayCursorHint>,
    /// A toolbar is being dragged.
    pub toolbar_dragging: bool,
    /// Hint of the inline toolbar under the pointer (inline toolbars active and hovered).
    pub inline_toolbar: Option<ToolbarCursorHint>,
    /// The pointer is over a layer-shell toolbar surface.
    pub toolbar_hover: bool,
    /// Hint of the layer-shell toolbar control under the pointer.
    pub layer_toolbar: Option<ToolbarCursorHint>,
    pub drawing: DrawingStateKind,
    /// Selection handle under the pointer.
    pub hovered_handle: Option<SelectionHandle>,
    /// The pointer is over the text resize handle.
    pub over_text_resize_handle: bool,
    /// The pointer is over a selected shape.
    pub over_selected_shape: bool,
}

pub open spec fn handle_icon(h: SelectionHandle) -> CursorIcon {
    match h {
        SelectionHandle::TopLeft | SelectionHandle::BottomRight => CursorIcon::NwseResize,
        SelectionHandle::TopRight | SelectionHandle::BottomLeft => CursorIcon::NeswResize,
        SelectionHandle::Top | SelectionHandle::Bottom => CursorIcon::NsResize,
        SelectionHandle::Left | SelectionHandle::Right => CursorIcon::EwResize,
    }
}

pub open spec fn toolbar_icon(h: ToolbarCursorHint) -> CursorIcon {
    match h {
        ToolbarCursorHint::Pointer => CursorIcon::Pointer,
        ToolbarCursorHint::Grab => CursorIcon::Grab,
        ToolbarCursorHint::Crosshair => CursorIcon::Crosshair,
        ToolbarCursorHint::Default => CursorIcon::Default,
    }
}

/// The cursor, by priority: the colour picker (crosshair while dragging its gradient), the
/// board picker, the context menu, the command palette, the help overlay, a toolbar drag,
/// inline and layer toolbars (a hovered layer toolbar without a hint gives the default
/// arrow), the drawing state, and finally, when idle, handles and selected shapes under the
/// pointer, with a crosshair for drawing as the fallback.
pub open spec fn spec_cursor_icon(c: CursorContext) -> CursorIcon {
    if c.color_picker is Some {
        if c.color_picker_dragging {
            CursorIcon::Crosshair
        } else {
            match c.color_picker->0 {
                ColorPickerCursorHint::Text => CursorIcon::Text,
                ColorPickerCursorHint::Crosshair => CursorIcon::Crosshair,
                ColorPickerCursorHint::Pointer => CursorIcon::Pointer,
                ColorPickerCursorHint::Default => CursorIcon::Default,
            }
        }
    } else if c.board_picker is Some {
        match c.board_picker->0 {
            BoardPickerCursorHint::Text => CursorIcon::Text,
            BoardPickerCursorHint::Pointer => CursorIcon::Pointer,
            BoardPickerCursorHint::Grab => CursorIcon::Grab,
            BoardPickerCursorHint::Grabbing => CursorIcon::Grabbing,
            BoardPickerCursorHint::Default => CursorIcon::Default,
        }
    } else if c.context_menu is Some {
        match c.context_menu->0 {
            ContextMenuCursorHint::Pointer => CursorIcon::Pointer,
            ContextMenuCursorHint::Default => CursorIcon::Default,
        }
    } else if c.command_palette is Some {
        match c.command_palette->0 {
            CommandPaletteCursorHint::Text => CursorIcon::Text,
            CommandPaletteCursorHint::Pointer => CursorIcon::Pointer,
            CommandPaletteCursorHint::Default => CursorIcon::Default,
        }
    } else if c.help_overlay is Some {
        match c.help_overlay->0 {
            HelpOverlayCursorHint::Text => CursorIcon::Text,
            HelpOverlayCursorHint::Default => CursorIcon::Default,
        }
    } else if c.toolbar_dragging {
        CursorIcon::Grabbing
    } else if c.inline_toolbar is Some {
        toolbar_icon(c.inline_toolbar->0)
    } else if c.toolbar_hover {
        match c.layer_toolbar {
            Some(h) => toolbar_icon(h),
            None => CursorIcon::Default,
        }
    } else {
        match c.drawing {
            DrawingStateKind::TextInput => CursorIcon::Text,
            DrawingStateKind::MovingSelection => CursorIcon::Grabbing,
            DrawingStateKind::ResizingText => CursorIcon::SeResize,
            DrawingStateKind::Drawing => CursorIcon::Crosshair,
            DrawingStateKind::Selecting => CursorIcon::Crosshair,
            DrawingStateKind::PendingTextClick => CursorIcon::Default,
            DrawingStateKind::ResizingSelection(h) => handle_icon(h),
            DrawingStateKind::Idle => if c.hovered_handle is Some {
                handle_icon(c.hovered_handle->0)
            } else if c.over_text_resize_handle {
                CursorIcon::SeResize
            } else if c.over_selected_shape {
                CursorIcon::Grab
            } else {
                CursorIcon::Crosshair
            },
        }
    }
}

fn icon_for_handle(h: SelectionHandle) -> (icon: CursorIcon)
    ensures
        icon == handle_icon(h),
{
    match h {
        SelectionHandle::TopLeft | SelectionHandle::BottomRight => CursorIcon::NwseResize,
        SelectionHandle::TopRight | SelectionHandle::BottomLeft => CursorIcon::NeswResize,
        SelectionHandle::Top | SelectionHandle::Bottom => CursorIcon::NsResize,
        SelectionHandle::Left | SelectionHandle::Right => CursorIcon::EwResize,
    }
}

fn icon_for_toolbar(h: ToolbarCursorHint) -> (icon: CursorIcon)
    ensures
        icon == toolbar_icon(h),
{
    match h {
        ToolbarCursorHint::Pointer => CursorIcon::Pointer,
        ToolbarCursorHint::Grab => CursorIcon::Grab,
        ToolbarCursorHint::Crosshair => CursorIcon::Crosshair,
        ToolbarCursorHint::Default => CursorIcon::Default,
    }
}

/// Computes the cursor for the given context (see `spec_cursor_icon`).
pub fn compute_cursor_icon(c: &CursorContext) -> (icon: CursorIcon)
    ensures
        icon == spec_cursor_icon(*c),
{
    if let Some(hint) = c.color_picker {
        if c.color_picker_dragging {
            return CursorIcon::Crosshair;
        }
        return match hint {
            ColorPickerCursorHint::Text => CursorIcon::Text,
            ColorPickerCursorHint::Crosshair => CursorIcon::Crosshair,
            ColorPickerCursorHint::Pointer => CursorIcon::Pointer,
            ColorPickerCursorHint::Default => CursorIcon::Default,
        };
    }
    if let Some(hint) = c.board_picker {
        return match hint {
            BoardPickerCursorHint::Text => CursorIcon::Text,
            BoardPickerCursorHint::Pointer => CursorIcon::Pointer,
            BoardPickerCursorHint::Grab => CursorIcon::Grab,
            BoardPickerCursorHint::Grabbing => CursorIcon::Grabbing,
            BoardPickerCursorHint::Default => CursorIcon::Default,
        };
    }
    if let Some(hint) = c.context_menu {
        return match hint {
            ContextMenuCursorHint::Pointer => CursorIcon::Pointer,
            ContextMenuCursorHint::Default => CursorIcon::Default,
        };
    }
    if let Some(hint) = c.command_palette {
        return match hint {
            CommandPaletteCursorHint::Text => CursorIcon::Text,
            CommandPaletteCursorHint::Pointer => CursorIcon::Pointer,
            CommandPaletteCursorHint::Default => CursorIcon::Default,
        };
    }
    if let Some(hint) = c.help_overlay {
        return match hint {
            HelpOverlayCursorHint::Text => CursorIcon::Text,
            HelpOverlayCursorHint::Default => CursorIcon::Default,
        };
    }
    if c.toolbar_dragging {
        return CursorIcon::Grabbing;
    }
    if let Some(hint) = c.inline_toolbar {
        return icon_for_toolbar(hint);
    }
    if c.toolbar_hover {
        return match c.layer_toolbar {
            Some(hint) => icon_for_toolbar(hint),
            None => CursorIcon::Default,
        };
    }
    match c.drawing {
        DrawingStateKind::TextInput => CursorIcon::Text,
        DrawingStateKind::MovingSelection => CursorIcon::Grabbing,
        DrawingStateKind::ResizingText => CursorIcon::SeResize,
        DrawingStateKind::Drawing => CursorIcon::Crosshair,
        DrawingStateKind::Selecting => CursorIcon::Crosshair,
        DrawingStateKind::PendingTextClick => CursorIcon::Default,
        DrawingStateKind::ResizingSelection(h) => icon_for_handle(h),
        DrawingStateKind::Idle => {
            if let Some(h) = c.hovered_handle {
                icon_for_handle(h)
            } else if c.over_text_resize_handle {
                CursorIcon::SeResize
            } else if c.over_selected_shape {
                CursorIcon::Grab
            } else {
                CursorIcon::Crosshair
            }
        },
    }
}

/// What to do with the pointer's cursor.
#[derive(Debug, Clone, Copy, PartialEq, Eq, Structural)]
pub enum PointerCursorAction {
    /// Hide the cursor (a toolbar drag holds the pointer lock).
    Hide,
    /// Set this shape; on success the caller records it as the current shape.
    Apply(CursorIcon),
    /// The shown shape is already right (or there is no pointer to set it on).
    Keep,
}

/// The pointer cursor state that persists between updates.
#[derive(Debug, Clone, Copy, PartialEq, Eq, Structural)]
pub struct PointerCursorState {
    /// The cursor is hidden.
    pub hidden: bool,
    /// The shape last set on the pointer, if known.
    pub current_shape: Option<CursorIcon>,
}

impl PointerCursorState {
    /// Decides the cursor update: hidden while a toolbar drag holds the pointer lock;
    /// otherwise a hidden cursor is revealed (its shape forgotten) and the computed icon
    /// is set when it differs from the current shape and a themed pointer exists.
    pub fn update_pointer_cursor(
        &mut self,
        c: &CursorContext,
        pointer_lock_active: bool,
        has_themed_pointer: bool,
    ) -> (action: PointerCursorAction)
        ensures
            (c.toolbar_dragging && pointer_lock_active) ==> action == PointerCursorAction::Hide
                && *final(self) == *old(self),
            !(c.toolbar_dragging && pointer_lock_active) ==> {
                let shape = if old(self).hidden { None } else { old(self).current_shape };
                &&& *final(self) == (PointerCursorState { hidden: false, current_shape: shape })
                &&& action == if has_themed_pointer && shape != Some(spec_cursor_icon(*c)) {
                    PointerCursorAction::Apply(spec_cursor_icon(*c))
                } else {
                    PointerCursorAction::Keep
                }
            },
    {
        if c.toolbar_dragging && pointer_lock_active {
            return PointerCursorAction::Hide;
        }
        if self.hidden {
            self.hidden = false;
            self.current_shape = None;
        }
        let icon = compute_cursor_icon(c);
        let differs = match self.current_shape {
            Some(s) => s != icon,
            None => true,
        };
        if has_themed_pointer && differs {
            PointerCursorAction::Apply(icon)
        } else {
            PointerCursorAction::Keep
        }
    }

    /// Records that the pointer's cursor was hidden.
    pub fn mark_hidden(&mut self)
        ensures
            *final(self) == (PointerCursorState { hidden: true, current_shape: None }),
    {
        self.hidden = true;
        self.current_shape = None;
    }

    /// Records that a shape was set on the pointer.
    pub fn mark_shape_set(&mut self, icon: CursorIcon)
        ensures
            *final(self) == (PointerCursorState { hidden: old(self).hidden, current_shape: Some(icon) }),
    {
        self.current_shape = Some(icon);
    }
}

/// An open popup decides the cursor whatever else lies under the pointer.
pub proof fn lemma_popup_overrides(c: CursorContext, d: CursorContext)
    requires
        c.color_picker is Some,
        d.color_picker == c.color_picker,
        d.color_picker_dragging == c.color_picker_dragging,
    ensures
        spec_cursor_icon(c) == spec_cursor_icon(d),
{
}

} // verus!
