//! Logical keys delivered to the overlay, and the routing decisions made on them.
use vstd::prelude::*;

verus! {

/// A key press, as the keyboard handler reports it.
#[derive(Debug, Clone, Copy, PartialEq, Eq, Structural)]
pub enum Key {
    Escape,
    Return,
    Backspace,
    Delete,
    Tab,
    Space,
    Up,
    Down,
    Left,
    Right,
    Home,
    End,
    PageUp,
    PageDown,
    Shift,
    Ctrl,
    Alt,
    /// A printable (or at least character-producing) key.
    Char(char),
    /// Function keys F1..F12 by number.
    F(u8),
    Unknown,
}

/// Whether a character is a control character (`char::is_control`: the Unicode `Cc` category).
pub open spec fn is_control(c: char) -> bool {
    let u = c as u32;
    u <= 0x1f || (0x7f <= u && u <= 0x9f)
}

pub fn char_is_control(c: char) -> (b: bool)
    ensures
        b == is_control(c),
{
    let u = c as u32;
    u <= 0x1f || (0x7f <= u && u <= 0x9f)
}

/// Keys that toolbar keyboard navigation may consume: only activation and tab keys,
/// and never while the command palette is open.
pub fn should_try_toolbar_key(key: Key, command_palette_open: bool) -> (b: bool)
    ensures
        b == (!command_palette_open && (key == Key::Tab || key == Key::Return || key
            == Key::Space)),
{
    if command_palette_open {
        return false;
    }
    matches!(key, Key::Tab | Key::Return | Key::Space)
}


/// A direction of keyboard zoom panning.
#[derive(Debug, Clone, Copy, PartialEq, Eq, Structural)]
pub enum PanDirection {
    Up,
    Down,
    Left,
    Right,
}

impl PanDirection {
    /// Signs of the screen delta a pan applies, `(dx, dy)`: the view moves against the
    /// arrow (up pans by a positive `dy`, left by a positive `dx`).
    pub fn delta_signs(self) -> (d: (i8, i8))
        ensures
            d == match self {
                PanDirection::Up => (0i8, 1i8),
                PanDirection::Down => (0i8, -1i8),
                PanDirection::Left => (1i8, 0i8),
                PanDirection::Right => (-1i8, 0i8),
            },
    {
        match self {
            PanDirection::Up => (0, 1),
            PanDirection::Down => (0, -1),
            PanDirection::Left => (1, 0),
            PanDirection::Right => (-1, 0),
        }
    }
}

/// What a key does while zoom is engaged.
#[derive(Debug, Clone, Copy, PartialEq, Eq, Structural)]
pub enum ZoomKeyAction {
    /// Leave zoom.
    ExitZoom,
    /// Swallow the key.
    Ignore,
    /// Pan the view; `large` uses the larger step (shift held).
    Pan { direction: PanDirection, large: bool },
    /// Zoom does not take the key; routing goes on.
    PassOn,
}

pub open spec fn arrow_direction(key: Key) -> Option<PanDirection> {
    match key {
        Key::Up => Some(PanDirection::Up),
        Key::Down => Some(PanDirection::Down),
        Key::Left => Some(PanDirection::Left),
        Key::Right => Some(PanDirection::Right),
        _ => None,
    }
}

fn arrow_of(key: Key) -> (d: Option<PanDirection>)
    ensures
        d == arrow_direction(key),
{
    match key {
        Key::Up => Some(PanDirection::Up),
        Key::Down => Some(PanDirection::Down),
        Key::Left => Some(PanDirection::Left),
        Key::Right => Some(PanDirection::Right),
        _ => None,
    }
}

/// A pressed key while zoom is engaged: Escape leaves zoom; arrows pan an active,
/// unlocked zoom and are swallowed otherwise; other keys pass on. Without zoom everything
/// passes on.
pub open spec fn spec_zoom_press(engaged: bool, active: bool, locked: bool, key: Key, shift: bool) -> ZoomKeyAction {
    if !engaged {
        ZoomKeyAction::PassOn
    } else if key == Key::Escape {
        ZoomKeyAction::ExitZoom
    } else if arrow_direction(key) is Some {
        if !active || locked {
            ZoomKeyAction::Ignore
        } else {
            ZoomKeyAction::Pan { direction: arrow_direction(key)->0, large: shift }
        }
    } else {
        ZoomKeyAction::PassOn
    }
}

/// The zoom decision on a pressed key (see `spec_zoom_press`).
pub fn zoom_press_action(engaged: bool, active: bool, locked: bool, key: Key, shift: bool) -> (a: ZoomKeyAction)
    ensures
        a == spec_zoom_press(engaged, active, locked, key, shift),
{
    if !engaged {
        return ZoomKeyAction::PassOn;
    }
    if key == Key::Escape {
        return ZoomKeyAction::ExitZoom;
    }
    match arrow_of(key) {
        Some(direction) => if !active || locked {
            ZoomKeyAction::Ignore
        } else {
            ZoomKeyAction::Pan { direction, large: shift }
        },
        None => ZoomKeyAction::PassOn,
    }
}

/// A repeated key while zoom is active: arrows keep panning unless zoom is locked (then
/// they are swallowed); everything else, Escape included, passes on.
pub open spec fn spec_zoom_repeat(active: bool, locked: bool, key: Key, shift: bool) -> ZoomKeyAction {
    if active && arrow_direction(key) is Some {
        if locked {
            ZoomKeyAction::Ignore
        } else {
            ZoomKeyAction::Pan { direction: arrow_direction(key)->0, large: shift }
        }
    } else {
        ZoomKeyAction::PassOn
    }
}

/// The zoom decision on a repeated key (see `spec_zoom_repeat`).
pub fn zoom_repeat_action(active: bool, locked: bool, key: Key, shift: bool) -> (a: ZoomKeyAction)
    ensures
        a == spec_zoom_repeat(active, locked, key, shift),
{
    if !active {
        return ZoomKeyAction::PassOn;
    }
    match arrow_of(key) {
        Some(direction) => if locked {
            ZoomKeyAction::Ignore
        } else {
            ZoomKeyAction::Pan { direction, large: shift }
        },
        None => ZoomKeyAction::PassOn,
    }
}

/// Whether the click-highlight preferences are saved after a key: only when presenter
/// mode did not flip and the highlight or tool-ring setting changed (presenter mode
/// switches those on its own).
pub fn highlight_prefs_changed(before: (bool, bool, bool), after: (bool, bool, bool)) -> (save: bool)
    ensures
        save == (before.2 == after.2 && (before.0 != after.0 || before.1 != after.1)),
{
    before.2 == after.2 && (before.0 != after.0 || before.1 != after.1)
}

} // verus!
