//! Command palette selection, scrolling and query editing.
use vstd::prelude::*;
use crate::keys::{Key, char_is_control, is_control};

verus! {

/// Most entries the palette shows at once.
pub const COMMAND_PALETTE_MAX_VISIBLE: usize = 10;

/// Cursor hint for different regions of the command palette.
#[derive(Debug, Clone, Copy, PartialEq, Eq, Structural)]
pub enum CommandPaletteCursorHint {
    /// Default arrow cursor.
    Default,
    /// Text editing cursor (I-beam) for input field.
    Text,
    /// Pointer/hand cursor for command items.
    Pointer,
}

/// Number of rows the palette shows for a filtered list of `total_items` entries.
pub fn command_palette_visible_count(total_items: usize) -> (n: usize)
    ensures
        n == if total_items < COMMAND_PALETTE_MAX_VISIBLE {
            total_items
        } else {
            COMMAND_PALETTE_MAX_VISIBLE
        },
{
    if total_items < COMMAND_PALETTE_MAX_VISIBLE {
        total_items
    } else {
        COMMAND_PALETTE_MAX_VISIBLE
    }
}

/// Padding above the query input, in pixels.
pub const COMMAND_PALETTE_PADDING: u64 = 12;
/// Padding below the last row, in pixels.
pub const COMMAND_PALETTE_PADDING_BOTTOM: u64 = 48;
/// Height of the query input, in pixels.
pub const COMMAND_PALETTE_INPUT_HEIGHT: u64 = 36;
/// Gap between the query input and the first row, in pixels.
pub const COMMAND_PALETTE_LIST_GAP: u64 = 8;
/// Height of one row, in pixels.
pub const COMMAND_PALETTE_ITEM_HEIGHT: u64 = 32;
/// Tallest the palette panel gets, in pixels.
pub const COMMAND_PALETTE_MAX_HEIGHT: u64 = 420;

/// Height of the palette panel that shows `visible_count` rows: the input block, the rows
/// and the bottom padding, capped at the maximum height.
pub open spec fn spec_palette_height(visible_count: int) -> int {
    let natural = COMMAND_PALETTE_PADDING + COMMAND_PALETTE_INPUT_HEIGHT + COMMAND_PALETTE_LIST_GAP
        + visible_count * COMMAND_PALETTE_ITEM_HEIGHT + COMMAND_PALETTE_PADDING_BOTTOM;
    if natural < COMMAND_PALETTE_MAX_HEIGHT {
        natural
    } else {
        COMMAND_PALETTE_MAX_HEIGHT as int
    }
}

/// Height in pixels of the palette panel showing `visible_count` rows.
pub fn command_palette_height(visible_count: usize) -> (h: u64)
    ensures
        h == spec_palette_height(visible_count as int),
{
    let items_top: u64 = COMMAND_PALETTE_PADDING + COMMAND_PALETTE_INPUT_HEIGHT + COMMAND_PALETTE_LIST_GAP;
    if visible_count >= 10 {
        // ten rows already reach the cap
        COMMAND_PALETTE_MAX_HEIGHT
    } else {
        let natural: u64 = items_top + (visible_count as u64) * COMMAND_PALETTE_ITEM_HEIGHT + COMMAND_PALETTE_PADDING_BOTTOM;
        if natural < COMMAND_PALETTE_MAX_HEIGHT {
            natural
        } else {
            COMMAND_PALETTE_MAX_HEIGHT
        }
    }
}

/// What a key press asks of the surrounding input state.
#[derive(Debug, Clone, Copy, PartialEq, Eq, Structural)]
pub struct PaletteKeyOutcome {
    /// Whether the palette consumed the key.
    pub handled: bool,
    /// The filtered entry to record and run, if the key executes one.
    pub execute: Option<usize>,
    /// Whether the overlay must be redrawn.
    pub needs_redraw: bool,
    /// Whether the whole surface must be repainted (the palette closed).
    pub full_damage: bool,
}

/// What a click on the palette asks of the surrounding input state.
#[derive(Debug, Clone, Copy, PartialEq, Eq, Structural)]
pub struct PaletteClickOutcome {
    /// Whether the palette consumed the click.
    pub handled: bool,
    /// The filtered entry to record, announce and run, if the click executes one.
    pub execute: Option<usize>,
}

/// Open/closed state, query, selection and scroll of the command palette.
#[derive(Debug, Clone)]
pub struct CommandPaletteState {
    pub open: bool,
    pub query: Vec<char>,
    pub selected: usize,
    pub scroll: usize,
}

impl CommandPaletteState {
    /// The selected row lies inside the visible window that starts at `scroll`
    /// (and that window's end is representable).
    pub open spec fn window_ok(&self) -> bool {
        &&& self.scroll <= self.selected
        &&& self.selected < self.scroll + COMMAND_PALETTE_MAX_VISIBLE
        &&& self.scroll + COMMAND_PALETTE_MAX_VISIBLE <= usize::MAX
    }

    /// A closed palette with an empty query.
    pub fn new() -> (s: CommandPaletteState)
        ensures
            !s.open,
            s.query@.len() == 0,
            s.selected == 0,
            s.scroll == 0,
            s.window_ok(),
    {
        CommandPaletteState { open: false, query: Vec::new(), selected: 0, scroll: 0 }
    }

    /// The current query as text.
    pub fn query_text(&self) -> (s: String)
        ensures
            s@ == self.query@,
    {
        crate::text::string_of(&self.query)
    }

    /// Opens the palette with an empty query and the first entry selected.
    pub fn open_palette(&mut self)
        ensures
            final(self).open,
            final(self).query@.len() == 0,
            final(self).selected == 0,
            final(self).scroll == 0,
    {
        self.open = true;
        self.query = Vec::new();
        self.selected = 0;
        self.scroll = 0;
    }

    /// Toggles the palette; returns whether it is now open (an opened palette starts fresh).
    pub fn toggle(&mut self) -> (now_open: bool)
        ensures
            now_open == !old(self).open,
            final(self).open == now_open,
            old(self).open ==> final(self).query@ == old(self).query@ && final(self).selected
                == old(self).selected && final(self).scroll == old(self).scroll,
            !old(self).open ==> final(self).query@.len() == 0 && final(self).selected == 0
                && final(self).scroll == 0,
    {
        if self.open {
            self.open = false;
            false
        } else {
            self.open_palette();
            true
        }
    }

    /// Handles a key while the palette may be open. `filtered_len` is the number of
    /// entries matching the current query.
    pub fn handle_key(&mut self, key: Key, filtered_len: usize) -> (out: PaletteKeyOutcome)
        requires
            old(self).window_ok(),
        ensures
            final(self).window_ok(),
            !old(self).open ==> *final(self) == *old(self) && out == (PaletteKeyOutcome {
                handled: false,
                execute: None,
                needs_redraw: false,
                full_damage: false,
            }),
            old(self).open ==> out.handled,
            old(self).open ==> match key {
                Key::Escape => {
                    &&& !final(self).open
                    &&& final(self).query@ == old(self).query@
                    &&& final(self).selected == old(self).selected
                    &&& final(self).scroll == old(self).scroll
                    &&& out.execute is None && out.needs_redraw && out.full_damage
                },
                Key::Return => {
                    let runs = old(self).selected < filtered_len;
                    &&& final(self).open == !runs
                    &&& final(self).query@ == old(self).query@
                    &&& final(self).selected == old(self).selected
                    &&& final(self).scroll == old(self).scroll
                    &&& out.execute == (if runs { Some(old(self).selected) } else { None })
                    &&& out.needs_redraw == runs && out.full_damage == runs
                },
                Key::Up => {
                    let moves = old(self).selected > 0;
                    &&& final(self).open
                    &&& final(self).query@ == old(self).query@
                    &&& final(self).selected == (if moves { old(self).selected - 1 } else { old(self).selected as int })
                    &&& final(self).scroll == (if moves && old(self).selected - 1 < old(self).scroll {
                        old(self).selected - 1
                    } else {
                        old(self).scroll as int
                    })
                    &&& out.execute is None && out.needs_redraw == moves && !out.full_damage
                },
                Key::Down => {
                    let moves = old(self).selected + 1 < filtered_len;
                    &&& final(self).open
                    &&& final(self).query@ == old(self).query@
                    &&& final(self).selected == (if moves { old(self).selected + 1 } else { old(self).selected as int })
                    &&& final(self).scroll == (if moves && old(self).selected + 1 >= old(self).scroll + COMMAND_PALETTE_MAX_VISIBLE {
                        old(self).selected + 1 - COMMAND_PALETTE_MAX_VISIBLE + 1
                    } else {
                        old(self).scroll as int
                    })
                    &&& out.execute is None && out.needs_redraw == moves && !out.full_damage
                },
                Key::Backspace => {
                    let edits = old(self).query@.len() > 0;
                    &&& final(self).open
                    &&& final(self).query@ == (if edits { old(self).query@.drop_last() } else { old(self).query@ })
                    &&& final(self).selected == (if edits { 0 } else { old(self).selected })
                    &&& final(self).scroll == (if edits { 0 } else { old(self).scroll })
                    &&& out.execute is None && out.needs_redraw == edits && !out.full_damage
                },
                Key::Char(c) => {
                    let edits = !is_control(c);
                    &&& final(self).open
                    &&& final(self).query@ == (if edits { old(self).query@.push(c) } else { old(self).query@ })
                    &&& final(self).selected == (if edits { 0 } else { old(self).selected })
                    &&& final(self).scroll == (if edits { 0 } else { old(self).scroll })
                    &&& out.execute is None && out.needs_redraw == edits && !out.full_damage
                },
                Key::Space => {
                    &&& final(self).open
                    &&& final(self).query@ == old(self).query@.push(' ')
                    &&& final(self).selected == 0 && final(self).scroll == 0
                    &&& out.execute is None && out.needs_redraw && !out.full_damage
                },
                _ => {
                    &&& *final(self) == *old(self)
                    &&& out.execute is None && !out.needs_redraw && !out.full_damage
                },
            },
    {
        let none = PaletteKeyOutcome {
            handled: true,
            execute: None,
            needs_redraw: false,
            full_damage: false,
        };
        if !self.open {
            return PaletteKeyOutcome { handled: false, ..none };
        }
        match key {
            Key::Escape => {
                self.open = false;
                PaletteKeyOutcome { needs_redraw: true, full_damage: true, ..none }
            },
            Key::Return => {
                if self.selected < filtered_len {
                    self.open = false;
                    PaletteKeyOutcome {
                        execute: Some(self.selected),
                        needs_redraw: true,
                        full_damage: true,
                        ..none
                    }
                } else {
                    none
                }
            },
            Key::Up => {
                if self.selected > 0 {
                    self.selected = self.selected - 1;
                    if self.selected < self.scroll {
                        self.scroll = self.selected;
                    }
                    PaletteKeyOutcome { needs_redraw: true, ..none }
                } else {
                    none
                }
            },
            Key::Down => {
                if filtered_len > 0 && self.selected < filtered_len - 1 {
                    self.selected = self.selected + 1;
                    if self.selected - self.scroll >= COMMAND_PALETTE_MAX_VISIBLE {
                        self.scroll = self.selected - COMMAND_PALETTE_MAX_VISIBLE + 1;
                    }
                    PaletteKeyOutcome { needs_redraw: true, ..none }
                } else {
                    none
                }
            },
            Key::Backspace => {
                if self.query.len() > 0 {
                    self.query.pop();
                    self.selected = 0;
                    self.scroll = 0;
                    PaletteKeyOutcome { needs_redraw: true, ..none }
                } else {
                    none
                }
            },
            Key::Char(ch) => {
                if !char_is_control(ch) {
                    self.query.push(ch);
                    self.selected = 0;
                    self.scroll = 0;
                    PaletteKeyOutcome { needs_redraw: true, ..none }
                } else {
                    none
                }
            },
            Key::Space => {
                self.query.push(' ');
                self.selected = 0;
                self.scroll = 0;
                PaletteKeyOutcome { needs_redraw: true, ..none }
            },
            _ => none,
        }
    }

    /// Handles a click while the palette may be open, once the caller has located the
    /// pointer: `inside` tells whether it hit the palette, `visible_row` which visible
    /// entry row (if any) it hit. `filtered_len` is the number of matching entries.
    pub fn handle_click(&mut self, inside: bool, visible_row: Option<usize>, filtered_len: usize) -> (out: PaletteClickOutcome)
        requires
            old(self).window_ok(),
            visible_row matches Some(r) ==> r < COMMAND_PALETTE_MAX_VISIBLE,
        ensures
            final(self).window_ok(),
            final(self).query@ == old(self).query@,
            final(self).scroll == old(self).scroll,
            !old(self).open ==> *final(self) == *old(self) && !out.handled && out.execute is None,
            old(self).open ==> out.handled,
            old(self).open && !inside ==> !final(self).open && out.execute is None
                && final(self).selected == old(self).selected,
            old(self).open && inside ==> match visible_row {
                Some(r) => {
                    let idx = old(self).scroll + r;
                    &&& final(self).selected == idx
                    &&& out.execute == (if idx < filtered_len { Some(idx as usize) } else { None })
                    &&& final(self).open == !(idx < filtered_len)
                },
                None => *final(self) == *old(self) && out.execute is None,
            },
    {
        if !self.open {
            return PaletteClickOutcome { handled: false, execute: None };
        }
        if !inside {
            self.open = false;
            return PaletteClickOutcome { handled: true, execute: None };
        }
        match visible_row {
            Some(row) => {
                let actual = self.scroll + row;
                self.selected = actual;
                if actual < filtered_len {
                    self.open = false;
                    PaletteClickOutcome { handled: true, execute: Some(actual) }
                } else {
                    PaletteClickOutcome { handled: true, execute: None }
                }
            },
            None => PaletteClickOutcome { handled: true, execute: None },
        }
    }
}

/// Cursor hint once the pointer has been located against the palette geometry: outside the
/// panel there is none; the input field shows a text cursor, entry rows a pointer.
pub fn command_palette_cursor_hint_from_local(inside: bool, in_input: bool, on_item: bool) -> (h: Option<CommandPaletteCursorHint>)
    ensures
        h == if !inside {
            None
        } else if in_input {
            Some(CommandPaletteCursorHint::Text)
        } else if on_item {
            Some(CommandPaletteCursorHint::Pointer)
        } else {
            Some(CommandPaletteCursorHint::Default)
        },
{
    if !inside {
        return None;
    }
    if in_input {
        return Some(CommandPaletteCursorHint::Text);
    }
    if on_item {
        return Some(CommandPaletteCursorHint::Pointer);
    }
    Some(CommandPaletteCursorHint::Default)
}

} // verus!
