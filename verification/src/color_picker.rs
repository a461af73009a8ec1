//! Color picker popup state: open/closed, colors, drag flag and the hex input field.
use vstd::prelude::*;
use crate::color::{Rgb8, color_to_hex, hex_string, is_hex_digit, parse_hex_color, spec_parse_hex_color};

verus! {

/// State of the color picker popup. `C` is the drawing color type; the popup only
/// carries such colors, the hex field works on 8-bit channels.
#[derive(Debug, Clone)]
pub enum ColorPickerPopupState<C> {
    /// Popup is not visible.
    Hidden,
    /// Popup is open with current editing state.
    Open {
        /// Original color when popup was opened (for cancel restoration).
        original_color: C,
        /// Currently selected color (live updates).
        current_color: C,
        /// Whether the hex input field is focused for editing.
        hex_editing: bool,
        /// Text buffer for hex input field.
        hex_buffer: Vec<char>,
        /// Whether we're currently dragging on the gradient.
        dragging: bool,
        /// Whether the hex text is selected (first keystroke replaces all).
        hex_selected: bool,
    },
}

/// What an edit of the hex field asks of the surrounding input state.
#[derive(Debug, Clone, Copy, PartialEq, Eq, Structural)]
pub struct HexEditOutcome {
    /// Whether the popup must be redrawn.
    pub redraw: bool,
    /// A color the buffer now spells, to become the current drawing color.
    pub parsed: Option<Rgb8>,
}

/// The popup's current colour after an edit that parsed `parsed`: the converted colour when
/// something parsed, else unchanged.
pub open spec fn current_follows<C, F: Fn(Rgb8) -> C>(parsed: Option<Rgb8>, before: C, after: C, to_color: F) -> bool {
    match parsed {
        Some(p) => to_color.ensures((p,), after),
        None => after == before,
    }
}

/// ASCII upper-casing of a hex digit (`char::to_ascii_uppercase`).
pub open spec fn ascii_upper(c: char) -> char {
    if 'a' <= c && c <= 'z' {
        ((c as u32) - 32) as char
    } else {
        c
    }
}

/// The buffer after typing `ch` into a buffer that is not selected.
pub open spec fn hex_append_result(buf: Seq<char>, ch: char) -> Seq<char> {
    if ch == '#' && buf.len() == 0 {
        seq!['#']
    } else {
        let max_len = if buf.len() > 0 && buf[0] == '#' { 7int } else { 6int };
        if buf.len() >= max_len || !is_hex_digit(ch) {
            buf
        } else {
            buf.push(ascii_upper(ch))
        }
    }
}

/// A field buffer never exceeds `#` plus six digits.
pub open spec fn hex_buffer_ok(buf: Seq<char>) -> bool {
    buf.len() <= 7 && (buf.len() == 7 ==> buf[0] == '#')
}

impl<C: Copy> ColorPickerPopupState<C> {
    pub open spec fn spec_is_open(&self) -> bool {
        self is Open
    }

    /// Every open buffer respects the length bound.
    pub open spec fn wf(&self) -> bool {
        match self {
            ColorPickerPopupState::Open { hex_buffer, .. } => hex_buffer_ok(hex_buffer@),
            ColorPickerPopupState::Hidden => true,
        }
    }

    /// Returns true if the color picker popup is open.
    pub fn is_color_picker_popup_open(&self) -> (b: bool)
        ensures
            b == self.spec_is_open(),
    {
        matches!(self, ColorPickerPopupState::Open { .. })
    }

    /// Opens the popup on `color`, whose 8-bit rendering is `hex`.
    pub fn open_color_picker_popup(color: C, hex: Rgb8) -> (s: Self)
        ensures
            s == (ColorPickerPopupState::Open {
                original_color: color,
                current_color: color,
                hex_editing: false,
                hex_buffer: s->hex_buffer,
                dragging: false,
                hex_selected: false,
            }),
            s->hex_buffer@ == hex_string(hex),
            s.wf(),
    {
        let buf = crate::text::chars_of(color_to_hex(hex).as_str());
        ColorPickerPopupState::Open {
            original_color: color,
            current_color: color,
            hex_editing: false,
            hex_buffer: buf,
            dragging: false,
            hex_selected: false,
        }
    }

    /// Closes the popup; returns the color to restore when asked to and the popup was open.
    pub fn close_color_picker_popup(&mut self, restore_original: bool) -> (restore: Option<C>)
        ensures
            *final(self) is Hidden,
            restore == (if restore_original && old(self).spec_is_open() {
                Some(old(self)->original_color)
            } else {
                None
            }),
    {
        let restore = match self {
            ColorPickerPopupState::Open { original_color, .. } => {
                if restore_original {
                    Some(*original_color)
                } else {
                    None
                }
            },
            ColorPickerPopupState::Hidden => None,
        };
        *self = ColorPickerPopupState::Hidden;
        restore
    }

    /// Closes the popup; returns the color to apply when it was open.
    pub fn apply_color_picker_popup(&mut self) -> (applied: Option<C>)
        ensures
            *final(self) is Hidden,
            applied == (if old(self).spec_is_open() { Some(old(self)->current_color) } else { None }),
    {
        let applied = match self {
            ColorPickerPopupState::Open { current_color, .. } => Some(*current_color),
            ColorPickerPopupState::Hidden => None,
        };
        *self = ColorPickerPopupState::Hidden;
        applied
    }

    /// Gets the current color in the popup (if open).
    pub fn color_picker_popup_current_color(&self) -> (c: Option<C>)
        ensures
            c == (if self.spec_is_open() { Some(self->current_color) } else { None }),
    {
        match self {
            ColorPickerPopupState::Open { current_color, .. } => Some(*current_color),
            ColorPickerPopupState::Hidden => None,
        }
    }

    /// Sets the current color picked on the gradient (rendered as `hex`) while open.
    pub fn set_from_gradient(&mut self, color: C, hex: Rgb8)
        requires
            old(self).wf(),
        ensures
            final(self).wf(),
            old(self).spec_is_open() ==> *final(self) == (ColorPickerPopupState::Open {
                original_color: old(self)->original_color,
                current_color: color,
                hex_editing: old(self)->hex_editing,
                hex_buffer: final(self)->hex_buffer,
                dragging: old(self)->dragging,
                hex_selected: old(self)->hex_selected,
            }) && final(self)->hex_buffer@ == hex_string(hex),
            !old(self).spec_is_open() ==> *final(self) == *old(self),
    {
        if let ColorPickerPopupState::Open { current_color, hex_buffer, .. } = self {
            *current_color = color;
            *hex_buffer = crate::text::chars_of(color_to_hex(hex).as_str());
        }
    }

    /// Updates whether we're dragging on the gradient.
    pub fn color_picker_popup_set_dragging(&mut self, dragging: bool)
        requires
            old(self).wf(),
        ensures
            final(self).wf(),
            old(self).spec_is_open() ==> *final(self) == (ColorPickerPopupState::Open {
                original_color: old(self)->original_color,
                current_color: old(self)->current_color,
                hex_editing: old(self)->hex_editing,
                hex_buffer: old(self)->hex_buffer,
                dragging,
                hex_selected: old(self)->hex_selected,
            }),
            !old(self).spec_is_open() ==> *final(self) == *old(self),
    {
        if let ColorPickerPopupState::Open { dragging: drag_state, .. } = self {
            *drag_state = dragging;
        }
    }

    /// Returns true if we're currently dragging on the gradient.
    pub fn color_picker_popup_is_dragging(&self) -> (b: bool)
        ensures
            b == (self.spec_is_open() && self->dragging),
    {
        matches!(self, ColorPickerPopupState::Open { dragging: true, .. })
    }

    /// Focuses or unfocuses the hex field. Focusing refills it from the current color
    /// (rendered as `current_hex`) and selects it so the first keystroke replaces it.
    pub fn color_picker_popup_set_hex_editing(&mut self, editing: bool, current_hex: Rgb8)
        requires
            old(self).wf(),
        ensures
            final(self).wf(),
            old(self).spec_is_open() ==> {
                &&& final(self).spec_is_open()
                &&& final(self)->original_color == old(self)->original_color
                &&& final(self)->current_color == old(self)->current_color
                &&& final(self)->dragging == old(self)->dragging
                &&& final(self)->hex_editing == editing
                &&& final(self)->hex_selected == editing
                &&& final(self)->hex_buffer@ == (if editing { hex_string(current_hex) } else { old(self)->hex_buffer@ })
            },
            !old(self).spec_is_open() ==> *final(self) == *old(self),
    {
        if let ColorPickerPopupState::Open { hex_editing, hex_buffer, hex_selected, .. } = self {
            *hex_editing = editing;
            if editing {
                *hex_buffer = crate::text::chars_of(color_to_hex(current_hex).as_str());
                *hex_selected = true;
            } else {
                *hex_selected = false;
            }
        }
    }

    /// Returns true if the hex input is currently being edited.
    pub fn color_picker_popup_is_hex_editing(&self) -> (b: bool)
        ensures
            b == (self.spec_is_open() && self->hex_editing),
    {
        matches!(self, ColorPickerPopupState::Open { hex_editing: true, .. })
    }

    /// Returns true if the hex input text is currently selected (replace-on-type).
    pub fn color_picker_popup_hex_selected(&self) -> (b: bool)
        ensures
            b == (self.spec_is_open() && self->hex_selected),
    {
        matches!(self, ColorPickerPopupState::Open { hex_selected: true, .. })
    }

    /// Types a character into the hex field: a selected buffer is replaced, `#` may only
    /// start the text, only hex digits are accepted (upper-cased), up to six digits. When a
    /// typed digit makes the buffer spell a colour, the popup's current colour becomes that
    /// colour, converted by `to_color` (and it is returned for the live drawing colour).
    pub fn color_picker_popup_hex_append<F: Fn(Rgb8) -> C>(&mut self, ch: char, to_color: F) -> (out: HexEditOutcome)
        requires
            old(self).wf(),
            forall|c: Rgb8| to_color.requires((c,)),
        ensures
            final(self).wf(),
            !(old(self).spec_is_open() && old(self)->hex_editing) ==> *final(self) == *old(self)
                && out == (HexEditOutcome { redraw: false, parsed: None }),
            (old(self).spec_is_open() && old(self)->hex_editing) ==> {
                let start = if old(self)->hex_selected { Seq::<char>::empty() } else { old(self)->hex_buffer@ };
                let buf = hex_append_result(start, ch);
                let typed = ch == '#' && start.len() == 0;
                &&& final(self).spec_is_open()
                &&& final(self)->original_color == old(self)->original_color
                &&& current_follows(out.parsed, old(self)->current_color, final(self)->current_color, to_color)
                &&& final(self)->dragging == old(self)->dragging
                &&& final(self)->hex_editing
                &&& !final(self)->hex_selected
                &&& final(self)->hex_buffer@ == buf
                &&& out.redraw == (buf != start || typed)
                &&& out.parsed == (if buf != start && !typed { spec_parse_hex_color(buf) } else { None })
            },
    {
        if let ColorPickerPopupState::Open { hex_buffer, hex_editing, hex_selected, current_color, .. } = self {
            if !*hex_editing {
                return HexEditOutcome { redraw: false, parsed: None };
            }
            if *hex_selected {
                *hex_buffer = Vec::new();
                *hex_selected = false;
            }
            if ch == '#' && hex_buffer.len() == 0 {
                hex_buffer.push(ch);
                assert(hex_buffer@ =~= seq!['#']);
                return HexEditOutcome { redraw: true, parsed: None };
            }
            let max_len: usize = if hex_buffer.len() > 0 && hex_buffer[0] == '#' { 7 } else { 6 };
            if hex_buffer.len() >= max_len {
                return HexEditOutcome { redraw: false, parsed: None };
            }
            if ('0' <= ch && ch <= '9') || ('a' <= ch && ch <= 'f') || ('A' <= ch && ch <= 'F') {
                let up = if 'a' <= ch && ch <= 'f' { ((ch as u8) - 32) as char } else { ch };
                let ghost before = hex_buffer@;
                hex_buffer.push(up);
                assert(hex_buffer@ != before) by {
                    assert(hex_buffer@.len() == before.len() + 1);
                }
                let text = crate::text::string_of(hex_buffer);
                let parsed = parse_hex_color(text.as_str());
                if let Some(rgb) = parsed {
                    *current_color = to_color(rgb);
                }
                HexEditOutcome { redraw: true, parsed }
            } else {
                HexEditOutcome { redraw: false, parsed: None }
            }
        } else {
            HexEditOutcome { redraw: false, parsed: None }
        }
    }

    /// Deletes from the hex field: a selected buffer is cleared, otherwise the last
    /// character goes. When the remaining text spells a colour, the popup's current colour
    /// becomes that colour, converted by `to_color` (and it is returned for the live drawing
    /// colour).
    pub fn color_picker_popup_hex_backspace<F: Fn(Rgb8) -> C>(&mut self, to_color: F) -> (out: HexEditOutcome)
        requires
            old(self).wf(),
            forall|c: Rgb8| to_color.requires((c,)),
        ensures
            final(self).wf(),
            !(old(self).spec_is_open() && old(self)->hex_editing) ==> *final(self) == *old(self)
                && out == (HexEditOutcome { redraw: false, parsed: None }),
            (old(self).spec_is_open() && old(self)->hex_editing) ==> {
                let old_buf = old(self)->hex_buffer@;
                let buf = if old(self)->hex_selected || old_buf.len() == 0 {
                    Seq::<char>::empty()
                } else {
                    old_buf.drop_last()
                };
                &&& final(self).spec_is_open()
                &&& final(self)->original_color == old(self)->original_color
                &&& current_follows(out.parsed, old(self)->current_color, final(self)->current_color, to_color)
                &&& final(self)->dragging == old(self)->dragging
                &&& final(self)->hex_editing
                &&& !final(self)->hex_selected
                &&& final(self)->hex_buffer@ == buf
                &&& out.redraw
                &&& out.parsed == spec_parse_hex_color(buf)
            },
    {
        if let ColorPickerPopupState::Open { hex_buffer, hex_editing, hex_selected, current_color, .. } = self {
            if !*hex_editing {
                return HexEditOutcome { redraw: false, parsed: None };
            }
            if *hex_selected {
                *hex_buffer = Vec::new();
                *hex_selected = false;
            } else if hex_buffer.len() > 0 {
                hex_buffer.pop();
            }
            let text = crate::text::string_of(hex_buffer);
            let parsed = parse_hex_color(text.as_str());
            if let Some(rgb) = parsed {
                *current_color = to_color(rgb);
            }
            HexEditOutcome { redraw: true, parsed }
        } else {
            HexEditOutcome { redraw: false, parsed: None }
        }
    }

    /// Commits the hex field: a valid colour becomes the popup's current colour (converted
    /// by `to_color`), is returned for the drawing colour, and the field is rewritten in
    /// canonical form; otherwise the field reverts to the current colour (rendered as
    /// `current_hex`). Either way editing ends. Returns `None` when nothing was committed.
    pub fn color_picker_popup_commit_hex<F: Fn(Rgb8) -> C>(&mut self, current_hex: Rgb8, to_color: F) -> (committed: Option<Rgb8>)
        requires
            old(self).wf(),
            forall|c: Rgb8| to_color.requires((c,)),
        ensures
            final(self).wf(),
            !(old(self).spec_is_open() && old(self)->hex_editing) ==> *final(self) == *old(self)
                && committed is None,
            (old(self).spec_is_open() && old(self)->hex_editing) ==> {
                let parsed = spec_parse_hex_color(old(self)->hex_buffer@);
                &&& committed == parsed
                &&& final(self).spec_is_open()
                &&& final(self)->original_color == old(self)->original_color
                &&& current_follows(parsed, old(self)->current_color, final(self)->current_color, to_color)
                &&& final(self)->dragging == old(self)->dragging
                &&& final(self)->hex_selected == old(self)->hex_selected
                &&& !final(self)->hex_editing
                &&& final(self)->hex_buffer@ == (match parsed {
                    Some(c) => hex_string(c),
                    None => hex_string(current_hex),
                })
            },
    {
        if let ColorPickerPopupState::Open { hex_buffer, hex_editing, current_color, .. } = self {
            if !*hex_editing {
                return None;
            }
            let text = crate::text::string_of(hex_buffer);
            let parsed = parse_hex_color(text.as_str());
            match parsed {
                Some(c) => {
                    *current_color = to_color(c);
                    *hex_buffer = crate::text::chars_of(color_to_hex(c).as_str());
                },
                None => {
                    *hex_buffer = crate::text::chars_of(color_to_hex(current_hex).as_str());
                },
            }
            *hex_editing = false;
            parsed
        } else {
            None
        }
    }

    /// Gets the current hex buffer value.
    pub fn color_picker_popup_hex_buffer(&self) -> (b: Option<String>)
        ensures
            self.spec_is_open() ==> (b matches Some(s) && s@ == self->hex_buffer@),
            !self.spec_is_open() ==> b is None,
    {
        match self {
            ColorPickerPopupState::Open { hex_buffer, .. } => Some(crate::text::string_of(hex_buffer)),
            ColorPickerPopupState::Hidden => None,
        }
    }

    /// Returns true if the current hex buffer is valid (or empty/in-progress).
    pub fn color_picker_popup_hex_valid(&self) -> (b: bool)
        ensures
            b == (!self.spec_is_open() || spec_parse_hex_color(self->hex_buffer@) is Some
                || self->hex_buffer@.len() == 0 || self->hex_buffer@ == seq!['#']),
    {
        match self {
            ColorPickerPopupState::Open { hex_buffer, .. } => {
                let text = crate::text::string_of(hex_buffer);
                let is_hash = hex_buffer.len() == 1 && hex_buffer[0] == '#';
                assert(is_hash == (hex_buffer@ == seq!['#'])) by {
                    if hex_buffer@ == seq!['#'] {
                        assert(hex_buffer@[0] == '#');
                    }
                    if is_hash {
                        assert(hex_buffer@ =~= seq!['#']);
                    }
                }
                parse_hex_color(text.as_str()).is_some() || hex_buffer.len() == 0 || is_hash
            },
            ColorPickerPopupState::Hidden => true,
        }
    }
}

} // verus!
