//! Routing of a pointer button press: to the command palette, the inline or layer-shell
//! toolbars, zoom panning, or the drawing input.
use vstd::prelude::*;

verus! {

/// Linux input code of the left button.
pub const BTN_LEFT: u32 = 0x110;
/// Linux input code of the right button.
pub const BTN_RIGHT: u32 = 0x111;
/// Linux input code of the middle button.
pub const BTN_MIDDLE: u32 = 0x112;

#[derive(Debug, Clone, Copy, PartialEq, Eq, Structural)]
pub enum MouseButton {
    Left,
    Middle,
    Right,
}

/// The first decision on a press.
#[derive(Debug, Clone, Copy, PartialEq, Eq, Structural)]
pub enum PressGate {
    /// The press is dropped (a tour is running, or the palette is open and the button is not
    /// the left one).
    Ignore,
    /// The palette is open: a left click goes to it; when it handled the click, the next
    /// release is suppressed.
    PaletteClick,
    /// Inline toolbars are active: offer a left press to them first (see `after_inline_press`).
    TryInline,
    /// Route the press by `press_target`.
    Route,
}

pub open spec fn spec_press_gate(tour_active: bool, palette_open: bool, inline_active: bool, button: u32) -> PressGate {
    if tour_active {
        PressGate::Ignore
    } else if palette_open {
        if button == BTN_LEFT {
            PressGate::PaletteClick
        } else {
            PressGate::Ignore
        }
    } else if inline_active {
        PressGate::TryInline
    } else {
        PressGate::Route
    }
}

/// The first decision on a press (see `spec_press_gate`).
pub fn press_gate(tour_active: bool, palette_open: bool, inline_active: bool, button: u32) -> (g: PressGate)
    ensures
        g == spec_press_gate(tour_active, palette_open, inline_active, button),
{
    if tour_active {
        return PressGate::Ignore;
    }
    if palette_open {
        return if button == BTN_LEFT {
            PressGate::PaletteClick
        } else {
            PressGate::Ignore
        };
    }
    if inline_active {
        PressGate::TryInline
    } else {
        PressGate::Route
    }
}

/// After the inline toolbars were offered the press (only a left press is offered, so
/// `handled` is false for other buttons): whether routing goes on. A handled press stops
/// here (locking the pointer when it started a move drag); so does any press while the
/// pointer is over an inline toolbar.
pub fn after_inline_press(button: u32, handled: bool, pointer_over_toolbar: bool) -> (continue_routing: bool)
    ensures
        continue_routing == !((button == BTN_LEFT && handled) || pointer_over_toolbar),
{
    !((button == BTN_LEFT && handled) || pointer_over_toolbar)
}

/// Where a routed press goes.
#[derive(Debug, Clone, Copy, PartialEq, Eq, Structural)]
pub enum PressTarget {
    /// A left press on a layer-shell toolbar: the toolbar handles it.
    ToolbarPress,
    /// Another button on a toolbar surface: nothing.
    ToolbarIgnore,
    /// The pointer is still marked over a toolbar while the press is elsewhere: a toolbar
    /// drag ends.
    EndToolbarDrag,
    /// A middle press while zoomed and unlocked starts panning.
    ZoomPan,
    /// The press goes to the drawing input.
    Mouse(MouseButton),
    /// An unknown button: nothing.
    Ignore,
}

pub open spec fn spec_press_target(
    on_toolbar: bool,
    pointer_over_toolbar: bool,
    zoom_active: bool,
    zoom_locked: bool,
    button: u32,
) -> PressTarget {
    if on_toolbar {
        if button == BTN_LEFT {
            PressTarget::ToolbarPress
        } else {
            PressTarget::ToolbarIgnore
        }
    } else if pointer_over_toolbar {
        PressTarget::EndToolbarDrag
    } else if zoom_active && button == BTN_MIDDLE && !zoom_locked {
        PressTarget::ZoomPan
    } else if button == BTN_LEFT {
        PressTarget::Mouse(MouseButton::Left)
    } else if button == BTN_MIDDLE {
        PressTarget::Mouse(MouseButton::Middle)
    } else if button == BTN_RIGHT {
        PressTarget::Mouse(MouseButton::Right)
    } else {
        PressTarget::Ignore
    }
}

/// Where a routed press goes (see `spec_press_target`).
pub fn press_target(
    on_toolbar: bool,
    pointer_over_toolbar: bool,
    zoom_active: bool,
    zoom_locked: bool,
    button: u32,
) -> (t: PressTarget)
    ensures
        t == spec_press_target(on_toolbar, pointer_over_toolbar, zoom_active, zoom_locked, button),
{
    if on_toolbar {
        return if button == BTN_LEFT {
            PressTarget::ToolbarPress
        } else {
            PressTarget::ToolbarIgnore
        };
    }
    if pointer_over_toolbar {
        return PressTarget::EndToolbarDrag;
    }
    if zoom_active && button == BTN_MIDDLE && !zoom_locked {
        return PressTarget::ZoomPan;
    }
    match button {
        BTN_LEFT => PressTarget::Mouse(MouseButton::Left),
        BTN_MIDDLE => PressTarget::Mouse(MouseButton::Middle),
        BTN_RIGHT => PressTarget::Mouse(MouseButton::Right),
        _ => PressTarget::Ignore,
    }
}

/// Whether a toolbar press locks the pointer: only a press that starts dragging one of the
/// toolbars themselves.
pub fn toolbar_press_locks_pointer(is_move_toolbar_event: bool, drag: bool) -> (lock: bool)
    ensures
        lock == (is_move_toolbar_event && drag),
{
    is_move_toolbar_event && drag
}

/// A press reaches the drawing input only when no popup, toolbar or zoom pan claims it.
pub proof fn lemma_drawing_gets_only_unclaimed_presses(
    tour_active: bool,
    palette_open: bool,
    inline_active: bool,
    on_toolbar: bool,
    pointer_over_toolbar: bool,
    zoom_active: bool,
    zoom_locked: bool,
    button: u32,
)
    requires
        spec_press_gate(tour_active, palette_open, inline_active, button) == PressGate::Route,
        spec_press_target(on_toolbar, pointer_over_toolbar, zoom_active, zoom_locked, button) is Mouse,
    ensures
        !tour_active,
        !palette_open,
        !on_toolbar,
        !pointer_over_toolbar,
        !(zoom_active && button == BTN_MIDDLE && !zoom_locked),
        button == BTN_LEFT || button == BTN_MIDDLE || button == BTN_RIGHT,
{
}

} // verus!
