//! Help overlay: visibility, page navigation and the search field.
use vstd::prelude::*;

verus! {

/// Upper bound for page navigation. The actual page count is calculated
/// dynamically by the render state, which clamps to the actual count.
pub const HELP_OVERLAY_MAX_PAGES: usize = 10;

/// Cursor hint for the help overlay.
#[derive(Debug, Clone, Copy, PartialEq, Eq, Structural)]
pub enum HelpOverlayCursorHint {
    /// Default arrow cursor.
    Default,
    /// Text editing cursor (I-beam) for search input.
    Text,
}

/// Visibility, page and search field of the help overlay. The search cursor counts
/// characters (Unicode scalar values), not bytes.
#[derive(Debug, Clone)]
pub struct HelpOverlayState {
    pub show_help: bool,
    pub quick_mode: bool,
    pub page: usize,
    pub search: Vec<char>,
    pub search_cursor: usize,
}

/// What opening or closing the overlay asks of the surrounding input state.
#[derive(Debug, Clone, Copy, PartialEq, Eq, Structural)]
pub struct HelpToggleOutcome {
    /// The scroll offset and its maximum go back to zero.
    pub reset_scroll: bool,
    /// The overlay was opened by the user (onboarding records the use).
    pub opened: bool,
}

/// The search text with `ins` inserted before character `pos` (or at the end when `pos` is past it).
pub open spec fn insert_at(text: Seq<char>, pos: int, ins: Seq<char>) -> Seq<char> {
    let p = if pos < text.len() { pos } else { text.len() as int };
    text.take(p) + ins + text.skip(p)
}

impl HelpOverlayState {
    /// A hidden overlay on its first page with an empty search.
    pub fn new() -> (s: HelpOverlayState)
        ensures
            !s.show_help,
            !s.quick_mode,
            s.page == 0,
            s.search@.len() == 0,
            s.search_cursor == 0,
    {
        HelpOverlayState { show_help: false, quick_mode: false, page: 0, search: Vec::new(), search_cursor: 0 }
    }

    fn open_internal(&mut self, quick_mode: bool)
        ensures
            final(self).show_help,
            final(self).quick_mode == quick_mode,
            final(self).page == 0,
            final(self).search@ == old(self).search@,
            final(self).search_cursor == old(self).search_cursor,
    {
        self.show_help = true;
        self.quick_mode = quick_mode;
        self.page = 0;
    }

    /// Toggles the full help overlay: closes it when shown, otherwise opens it on page one.
    pub fn toggle_help_overlay(&mut self) -> (out: HelpToggleOutcome)
        ensures
            out.reset_scroll,
            out.opened == !old(self).show_help,
            final(self).show_help == !old(self).show_help,
            !final(self).quick_mode,
            old(self).show_help ==> final(self).page == old(self).page,
            !old(self).show_help ==> final(self).page == 0,
            final(self).search@ == old(self).search@,
            final(self).search_cursor == old(self).search_cursor,
    {
        if self.show_help {
            self.show_help = false;
            self.quick_mode = false;
            return HelpToggleOutcome { reset_scroll: true, opened: false };
        }
        self.open_internal(false);
        HelpToggleOutcome { reset_scroll: true, opened: true }
    }

    /// Toggles quick help: closes the overlay only when it is shown in quick mode, otherwise
    /// (re)opens it in quick mode on page one.
    pub fn toggle_quick_help(&mut self) -> (out: HelpToggleOutcome)
        ensures
            out.reset_scroll,
            out.opened == !(old(self).show_help && old(self).quick_mode),
            final(self).show_help == out.opened,
            final(self).quick_mode == out.opened,
            out.opened ==> final(self).page == 0,
            !out.opened ==> final(self).page == old(self).page,
            final(self).search@ == old(self).search@,
            final(self).search_cursor == old(self).search_cursor,
    {
        if self.show_help && self.quick_mode {
            self.show_help = false;
            self.quick_mode = false;
            return HelpToggleOutcome { reset_scroll: true, opened: false };
        }
        self.open_internal(true);
        HelpToggleOutcome { reset_scroll: true, opened: true }
    }

    /// Moves to the next page while below the page bound; returns whether it moved
    /// (a move also resets the scroll offset).
    pub fn help_overlay_next_page(&mut self) -> (moved: bool)
        ensures
            moved == (old(self).page + 1 < HELP_OVERLAY_MAX_PAGES),
            final(self).page == (if moved { old(self).page + 1 } else { old(self).page as int }),
            final(self).show_help == old(self).show_help,
            final(self).quick_mode == old(self).quick_mode,
            final(self).search@ == old(self).search@,
            final(self).search_cursor == old(self).search_cursor,
    {
        if self.page < HELP_OVERLAY_MAX_PAGES - 1 {
            self.page = self.page + 1;
            true
        } else {
            false
        }
    }

    /// Moves to the previous page unless on the first; returns whether it moved.
    pub fn help_overlay_prev_page(&mut self) -> (moved: bool)
        ensures
            moved == (old(self).page > 0),
            final(self).page == (if moved { old(self).page - 1 } else { old(self).page as int }),
            final(self).show_help == old(self).show_help,
            final(self).quick_mode == old(self).quick_mode,
            final(self).search@ == old(self).search@,
            final(self).search_cursor == old(self).search_cursor,
    {
        if self.page > 0 {
            self.page = self.page - 1;
            true
        } else {
            false
        }
    }

    /// Clears the search text and puts the cursor at its start.
    pub fn clear_help_search(&mut self)
        ensures
            final(self).search@.len() == 0,
            final(self).search_cursor == 0,
            final(self).show_help == old(self).show_help,
            final(self).quick_mode == old(self).quick_mode,
            final(self).page == old(self).page,
    {
        self.search = Vec::new();
        self.search_cursor = 0;
    }

    /// Moves the search cursor one character left; returns whether a redraw is due
    /// (whenever the cursor was not at the start). A cursor past the end lands on the
    /// last character.
    pub fn help_search_cursor_left(&mut self) -> (redraw: bool)
        ensures
            redraw == (old(self).search_cursor > 0),
            final(self).search_cursor == (if old(self).search_cursor > 0 && old(self).search@.len() > 0 {
                (if old(self).search_cursor < old(self).search@.len() {
                    old(self).search_cursor as int
                } else {
                    old(self).search@.len() as int
                }) - 1
            } else {
                old(self).search_cursor as int
            }),
            final(self).search@ == old(self).search@,
            final(self).show_help == old(self).show_help,
            final(self).page == old(self).page,
    {
        if self.search_cursor > 0 {
            let n = self.search.len();
            if n > 0 {
                let upto = if self.search_cursor < n { self.search_cursor } else { n };
                self.search_cursor = upto - 1;
            }
            true
        } else {
            false
        }
    }

    /// Moves the search cursor one character right unless at the end; returns whether it moved.
    pub fn help_search_cursor_right(&mut self) -> (moved: bool)
        ensures
            moved == (old(self).search_cursor < old(self).search@.len()),
            final(self).search_cursor == (if moved { old(self).search_cursor + 1 } else { old(self).search_cursor as int }),
            final(self).search@ == old(self).search@,
            final(self).show_help == old(self).show_help,
            final(self).page == old(self).page,
    {
        if self.search_cursor < self.search.len() {
            self.search_cursor = self.search_cursor + 1;
            true
        } else {
            false
        }
    }

    /// Inserts text at the search cursor (at the end when the cursor is past it) and moves
    /// the cursor past the inserted characters.
    pub fn help_search_insert(&mut self, text: &str)
        requires
            old(self).search_cursor + text@.len() <= usize::MAX,
        ensures
            final(self).search@ == insert_at(old(self).search@, old(self).search_cursor as int, text@),
            final(self).search_cursor == old(self).search_cursor + text@.len(),
            final(self).show_help == old(self).show_help,
            final(self).page == old(self).page,
    {
        let ins = crate::text::chars_of(text);
        let n = self.search.len();
        let pos = if self.search_cursor < n { self.search_cursor } else { n };
        let mut out: Vec<char> = Vec::new();
        let mut i: usize = 0;
        while i < pos
            invariant
                i <= pos <= n == self.search.len(),
                out@ == self.search@.take(i as int),
            decreases pos - i,
        {
            out.push(self.search[i]);
            assert(self.search@.take(i as int).push(self.search@[i as int]) =~= self.search@.take(i + 1));
            i = i + 1;
        }
        let mut j: usize = 0;
        while j < ins.len()
            invariant
                j <= ins.len(),
                pos <= n == self.search.len(),
                out@ == self.search@.take(pos as int) + ins@.take(j as int),
            decreases ins.len() - j,
        {
            out.push(ins[j]);
            assert(ins@.take(j as int).push(ins@[j as int]) =~= ins@.take(j + 1));
            j = j + 1;
        }
        assert(ins@.take(ins.len() as int) =~= ins@);
        let mut k: usize = pos;
        while k < n
            invariant
                pos <= k <= n == self.search.len(),
                out@ == self.search@.take(pos as int) + ins@ + self.search@.subrange(pos as int, k as int),
            decreases n - k,
        {
            out.push(self.search[k]);
            assert(self.search@.subrange(pos as int, k as int).push(self.search@[k as int]) =~= self.search@.subrange(pos as int, k + 1));
            k = k + 1;
        }
        assert(self.search@.subrange(pos as int, n as int) =~= self.search@.skip(pos as int));
        self.search = out;
        self.search_cursor = self.search_cursor + ins.len();
    }

    /// Deletes the character before the cursor; returns whether a redraw is due (whenever
    /// the cursor was not at the start). Nothing is deleted when the cursor is past the end.
    pub fn help_search_backspace(&mut self) -> (redraw: bool)
        ensures
            redraw == (old(self).search_cursor > 0),
            (old(self).search_cursor > 0 && old(self).search_cursor <= old(self).search@.len()) ==> {
                &&& final(self).search@ == old(self).search@.remove(old(self).search_cursor - 1)
                &&& final(self).search_cursor == old(self).search_cursor - 1
            },
            !(old(self).search_cursor > 0 && old(self).search_cursor <= old(self).search@.len()) ==> {
                &&& final(self).search@ == old(self).search@
                &&& final(self).search_cursor == old(self).search_cursor
            },
            final(self).show_help == old(self).show_help,
            final(self).page == old(self).page,
    {
        if self.search_cursor > 0 {
            if self.search_cursor <= self.search.len() {
                self.search.remove(self.search_cursor - 1);
                self.search_cursor = self.search_cursor - 1;
            }
            true
        } else {
            false
        }
    }

    /// The search text as a `String`.
    pub fn search_text(&self) -> (s: String)
        ensures
            s@ == self.search@,
    {
        crate::text::string_of(&self.search)
    }
}

/// Backspace right after typing one character at a cursor inside the text removes exactly
/// that character and puts the cursor back.
pub proof fn lemma_insert_then_backspace(text: Seq<char>, cursor: int, c: char)
    requires
        0 <= cursor <= text.len(),
    ensures
        insert_at(text, cursor, seq![c]).remove(cursor) == text,
        cursor + 1 <= insert_at(text, cursor, seq![c]).len(),
{
    assert(insert_at(text, cursor, seq![c]).remove(cursor) =~= text);
}


/// Whether a point lies in the help overlay box, which is centred and leaves a tenth of
/// the width and a twentieth of the height as margins on each side (edges included).
pub open spec fn in_help_box(x: int, y: int, width: int, height: int) -> bool {
    &&& 10 * x >= width
    &&& 10 * x <= 9 * width
    &&& 20 * y >= height
    &&& 20 * y <= 19 * height
}

/// Whether a point of the box lies in its top 80 pixels, the navigation and search area.
pub open spec fn in_help_nav(y: int, height: int) -> bool {
    20 * y <= height + 1600
}

impl HelpOverlayState {
    /// The cursor for a pointer position: none when the overlay is hidden or the pointer is
    /// outside its box; a text cursor over the navigation/search area at the top (typing goes
    /// to the search); the default arrow elsewhere in the box. The box bounds are computed
    /// exactly.
    pub fn help_overlay_cursor_hint_at(&self, x: i32, y: i32, surface_width: u32, surface_height: u32) -> (hint:
        Option<HelpOverlayCursorHint>)
        ensures
            !self.show_help ==> hint is None,
            self.show_help && !in_help_box(x as int, y as int, surface_width as int, surface_height as int) ==> hint is None,
            self.show_help && in_help_box(x as int, y as int, surface_width as int, surface_height as int) ==> hint == Some(
                if in_help_nav(y as int, surface_height as int) {
                    HelpOverlayCursorHint::Text
                } else {
                    HelpOverlayCursorHint::Default
                },
            ),
    {
        if !self.show_help {
            return None;
        }
        let x10 = (x as i64) * 10;
        let y20 = (y as i64) * 20;
        let w = surface_width as i64;
        let h = surface_height as i64;
        if x10 < w || x10 > 9 * w || y20 < h || y20 > 19 * h {
            return None;
        }
        if y20 <= h + 1600 {
            Some(HelpOverlayCursorHint::Text)
        } else {
            Some(HelpOverlayCursorHint::Default)
        }
    }
}

} // verus!
