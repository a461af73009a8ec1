//! The pointer, undo-limit, surface-size and text-session part of the input state.
use vstd::prelude::*;
use crate::cursor::DrawingStateKind;

verus! {

/// What cancelling the current interaction asks of the drawing state besides going idle.
#[derive(Debug, Clone, Copy, PartialEq, Eq, Structural)]
pub enum CancelEffect {
    /// Nothing was in progress.
    Nothing,
    /// A text session ends: the edited shape is restored and its preview cleared.
    EndTextInput,
    /// A pending text click is dropped.
    DropPendingClick,
    /// The provisional stroke or marquee is cleared and redrawn.
    ClearProvisional,
    /// Moved or resized shapes go back to their snapshots.
    RestoreSnapshots,
    /// Resized shapes go back to their resize snapshots.
    RestoreResize,
}

/// Pointer, undo limit, surface size and text-session state.
#[derive(Debug, Clone, Copy, PartialEq, Eq)]
pub struct InteractionState {
    pub last_pointer_position: (i32, i32),
    pub needs_redraw: bool,
    /// At least one.
    pub undo_stack_limit: usize,
    pub surface_width: u32,
    pub surface_height: u32,
    /// Width of the text box being typed, if it was resized.
    pub text_wrap_width: Option<i32>,
    pub drawing: DrawingStateKind,
}

impl InteractionState {
    /// Idle, with the given undo limit (at least one).
    pub fn new(undo_stack_limit: usize) -> (s: InteractionState)
        ensures
            s == (InteractionState {
                last_pointer_position: (0, 0),
                needs_redraw: false,
                undo_stack_limit: if undo_stack_limit < 1 { 1 } else { undo_stack_limit },
                surface_width: 0,
                surface_height: 0,
                text_wrap_width: None,
                drawing: DrawingStateKind::Idle,
            }),
    {
        InteractionState {
            last_pointer_position: (0, 0),
            needs_redraw: false,
            undo_stack_limit: if undo_stack_limit < 1 { 1 } else { undo_stack_limit },
            surface_width: 0,
            surface_height: 0,
            text_wrap_width: None,
            drawing: DrawingStateKind::Idle,
        }
    }

    /// The last known pointer position.
    pub fn pointer_position(&self) -> (p: (i32, i32))
        ensures
            p == self.last_pointer_position,
    {
        self.last_pointer_position
    }

    /// Records the pointer position; `tool_ring_moved` says whether the click-highlight
    /// ring that follows the pointer moved, which asks for a redraw.
    pub fn update_pointer_position(&mut self, x: i32, y: i32, tool_ring_moved: bool)
        ensures
            *final(self) == (InteractionState {
                last_pointer_position: (x, y),
                needs_redraw: old(self).needs_redraw || tool_ring_moved,
                ..*old(self)
            }),
    {
        self.last_pointer_position = (x, y);
        if tool_ring_moved {
            self.needs_redraw = true;
        }
    }

    /// Records the pointer position without asking for pointer-driven visuals (no redraw).
    pub fn update_pointer_position_synthetic(&mut self, x: i32, y: i32)
        ensures
            *final(self) == (InteractionState { last_pointer_position: (x, y), ..*old(self) }),
    {
        self.last_pointer_position = (x, y);
    }

    /// Sets the undo limit for later actions, raised to at least one.
    pub fn set_undo_stack_limit(&mut self, limit: usize)
        ensures
            *final(self) == (InteractionState { undo_stack_limit: if limit < 1 { 1 } else { limit }, ..*old(self) }),
    {
        self.undo_stack_limit = if limit < 1 { 1 } else { limit };
    }

    /// Records the surface size the backend configured.
    pub fn update_surface_dimensions(&mut self, width: u32, height: u32)
        ensures
            *final(self) == (InteractionState { surface_width: width, surface_height: height, ..*old(self) }),
    {
        self.surface_width = width;
        self.surface_height = height;
    }

    /// Ends the text session: the wrap width is forgotten, the state goes idle and a redraw
    /// is due (the caller restores the edited shape and clears the preview).
    pub fn cancel_text_input(&mut self)
        ensures
            *final(self) == (InteractionState {
                text_wrap_width: None,
                drawing: DrawingStateKind::Idle,
                needs_redraw: true,
                ..*old(self)
            }),
    {
        self.text_wrap_width = None;
        self.drawing = DrawingStateKind::Idle;
        self.needs_redraw = true;
    }

    /// Cancels whatever is in progress without leaving the overlay; the state goes idle,
    /// and the returned effect says what else to undo. Text input ends as
    /// `cancel_text_input` does; a dropped stroke or marquee asks for a redraw.
    pub fn cancel_active_interaction(&mut self) -> (effect: CancelEffect)
        ensures
            final(self).drawing == DrawingStateKind::Idle,
            final(self).last_pointer_position == old(self).last_pointer_position,
            final(self).undo_stack_limit == old(self).undo_stack_limit,
            final(self).surface_width == old(self).surface_width,
            final(self).surface_height == old(self).surface_height,
            effect == match old(self).drawing {
                DrawingStateKind::Idle => CancelEffect::Nothing,
                DrawingStateKind::TextInput => CancelEffect::EndTextInput,
                DrawingStateKind::PendingTextClick => CancelEffect::DropPendingClick,
                DrawingStateKind::Drawing | DrawingStateKind::Selecting => CancelEffect::ClearProvisional,
                DrawingStateKind::MovingSelection | DrawingStateKind::ResizingText => CancelEffect::RestoreSnapshots,
                DrawingStateKind::ResizingSelection(_) => CancelEffect::RestoreResize,
            },
            final(self).text_wrap_width == if effect == CancelEffect::EndTextInput {
                None
            } else {
                old(self).text_wrap_width
            },
            final(self).needs_redraw == (old(self).needs_redraw || effect == CancelEffect::EndTextInput || effect
                == CancelEffect::ClearProvisional),
    {
        let effect = match self.drawing {
            DrawingStateKind::Idle => CancelEffect::Nothing,
            DrawingStateKind::TextInput => CancelEffect::EndTextInput,
            DrawingStateKind::PendingTextClick => CancelEffect::DropPendingClick,
            DrawingStateKind::Drawing | DrawingStateKind::Selecting => CancelEffect::ClearProvisional,
            DrawingStateKind::MovingSelection | DrawingStateKind::ResizingText => CancelEffect::RestoreSnapshots,
            DrawingStateKind::ResizingSelection(_) => CancelEffect::RestoreResize,
        };
        match effect {
            CancelEffect::EndTextInput => self.cancel_text_input(),
            CancelEffect::ClearProvisional => {
                self.drawing = DrawingStateKind::Idle;
                self.needs_redraw = true;
            },
            _ => {
                self.drawing = DrawingStateKind::Idle;
            },
        }
        effect
    }
}

} // verus!
