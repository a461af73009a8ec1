//! Stylus (tablet tool) state: where the stylus is, whether its tip is down, and the
//! automatic switch to the eraser while a physical eraser is near the tablet.
use vstd::prelude::*;

verus! {

/// Stylus state. `K` is the tool type of the drawing input.
#[derive(Debug, Clone, Copy, PartialEq, Eq)]
pub struct StylusState<K> {
    pub tip_down: bool,
    pub on_overlay: bool,
    pub on_toolbar: bool,
    /// The eraser was selected automatically because a physical eraser came near.
    pub auto_switched_to_eraser: bool,
    /// The tool override in force before the automatic switch.
    pub pre_eraser_override: Option<K>,
}

/// What a stylus tip-down does.
#[derive(Debug, Clone, Copy, PartialEq, Eq, Structural)]
pub enum StylusDown {
    /// Offer the press to the inline toolbars first; if they take it, the stylus is on a
    /// toolbar and nothing else happens (see `inline_press_taken`), otherwise continue with
    /// `stylus_down`.
    TryInline,
    /// The stylus is on a layer-shell toolbar: the toolbar handles the press.
    ToolbarPress,
    /// The stylus is outside the overlay: nothing.
    Ignore,
    /// The tip touches the overlay: a left press in the drawing input.
    Draw,
}

/// What a stylus tip-up does.
#[derive(Debug, Clone, Copy, PartialEq, Eq, Structural)]
pub enum StylusUp {
    /// Release on an inline toolbar; the stylus leaves it and a toolbar drag ends.
    InlineRelease,
    /// The stylus is on a layer-shell toolbar: a toolbar drag ends.
    EndToolbarDrag,
    /// The stylus is outside the overlay: nothing.
    Ignore,
    /// The tip leaves the overlay: a left release in the drawing input.
    Draw,
}

/// The thickness kept after a stroke: the peak reached, else the last pressure-adjusted
/// one, else the base.
pub fn final_thickness<T: Copy>(peak: Option<T>, pressure: Option<T>, base: Option<T>) -> (t: Option<T>)
    ensures
        t == if peak is Some {
            peak
        } else if pressure is Some {
            pressure
        } else {
            base
        },
{
    match peak {
        Some(p) => Some(p),
        None => match pressure {
            Some(p) => Some(p),
            None => base,
        },
    }
}

/// The state and the override to apply after the stylus comes near (see `proximity_in`).
pub open spec fn spec_proximity_in<K>(
    s: StylusState<K>,
    on_overlay: bool,
    on_toolbar: bool,
    auto_eraser_switch: bool,
    physical_eraser: bool,
    eraser_active: bool,
    current_override: Option<K>,
    eraser: K,
) -> (StylusState<K>, Option<Option<K>>) {
    let near = StylusState { on_overlay, on_toolbar, tip_down: false, ..s };
    if auto_eraser_switch && physical_eraser && !eraser_active {
        (
            StylusState { auto_switched_to_eraser: true, pre_eraser_override: current_override, ..near },
            Some(Some(eraser)),
        )
    } else {
        (near, None)
    }
}

/// The state and the override to restore after the stylus goes away (see `proximity_out`).
pub open spec fn spec_proximity_out<K>(s: StylusState<K>) -> (StylusState<K>, Option<Option<K>>) {
    (
        StylusState {
            tip_down: false,
            on_overlay: false,
            on_toolbar: false,
            auto_switched_to_eraser: false,
            pre_eraser_override: None,
        },
        if s.auto_switched_to_eraser {
            Some(s.pre_eraser_override)
        } else {
            None
        },
    )
}

impl<K: Copy> StylusState<K> {
    /// A stylus away from the tablet.
    pub fn new() -> (s: StylusState<K>)
        ensures
            !s.tip_down,
            !s.on_overlay,
            !s.on_toolbar,
            !s.auto_switched_to_eraser,
            s.pre_eraser_override is None,
    {
        StylusState {
            tip_down: false,
            on_overlay: false,
            on_toolbar: false,
            auto_switched_to_eraser: false,
            pre_eraser_override: None,
        }
    }

    /// The stylus came near a surface. It is not touching; when a physical eraser comes
    /// near, automatic switching is enabled and the eraser is not already active, the
    /// current override is saved and the returned override (the eraser) is to be applied.
    pub fn proximity_in(
        &mut self,
        on_overlay: bool,
        on_toolbar: bool,
        auto_eraser_switch: bool,
        physical_eraser: bool,
        eraser_active: bool,
        current_override: Option<K>,
        eraser: K,
    ) -> (apply: Option<Option<K>>)
        ensures
            (*final(self), apply) == spec_proximity_in(
                *old(self),
                on_overlay,
                on_toolbar,
                auto_eraser_switch,
                physical_eraser,
                eraser_active,
                current_override,
                eraser,
            ),
    {
        self.on_overlay = on_overlay;
        self.on_toolbar = on_toolbar;
        self.tip_down = false;
        if auto_eraser_switch && physical_eraser && !eraser_active {
            self.pre_eraser_override = current_override;
            self.auto_switched_to_eraser = true;
            Some(Some(eraser))
        } else {
            None
        }
    }

    /// The stylus went away. When the eraser was selected automatically, the saved
    /// override is returned to be restored, and the switch is forgotten.
    pub fn proximity_out(&mut self) -> (restore: Option<Option<K>>)
        ensures
            (*final(self), restore) == spec_proximity_out(*old(self)),
    {
        self.tip_down = false;
        self.on_overlay = false;
        self.on_toolbar = false;
        let restore = if self.auto_switched_to_eraser {
            Some(self.pre_eraser_override)
        } else {
            None
        };
        self.auto_switched_to_eraser = false;
        self.pre_eraser_override = None;
        restore
    }

    /// The tip touched down (after the inline toolbars, when active, declined it).
    pub fn stylus_down(&mut self, inline_active: bool, inline_declined: bool) -> (d: StylusDown)
        ensures
            inline_active && !inline_declined ==> d == StylusDown::TryInline && *final(self) == *old(self),
            !(inline_active && !inline_declined) && old(self).on_toolbar ==> d == StylusDown::ToolbarPress
                && *final(self) == *old(self),
            !(inline_active && !inline_declined) && !old(self).on_toolbar && !old(self).on_overlay ==> d
                == StylusDown::Ignore && *final(self) == *old(self),
            !(inline_active && !inline_declined) && !old(self).on_toolbar && old(self).on_overlay ==> d
                == StylusDown::Draw && *final(self) == (StylusState { tip_down: true, ..*old(self) }),
    {
        if inline_active && !inline_declined {
            return StylusDown::TryInline;
        }
        if self.on_toolbar {
            return StylusDown::ToolbarPress;
        }
        if !self.on_overlay {
            return StylusDown::Ignore;
        }
        self.tip_down = true;
        StylusDown::Draw
    }

    /// The inline toolbars took a tip-down: the stylus is on a toolbar.
    pub fn inline_press_taken(&mut self)
        ensures
            *final(self) == (StylusState { on_toolbar: true, ..*old(self) }),
    {
        self.on_toolbar = true;
    }

    /// The tip went up.
    pub fn stylus_up(&mut self, inline_active: bool) -> (u: StylusUp)
        ensures
            inline_active && old(self).on_toolbar ==> u == StylusUp::InlineRelease && *final(self) == (StylusState {
                on_toolbar: false,
                ..*old(self)
            }),
            !inline_active && old(self).on_toolbar ==> u == StylusUp::EndToolbarDrag && *final(self) == *old(self),
            !old(self).on_toolbar && !old(self).on_overlay ==> u == StylusUp::Ignore && *final(self) == *old(self),
            !old(self).on_toolbar && old(self).on_overlay ==> u == StylusUp::Draw && *final(self) == (StylusState {
                tip_down: false,
                ..*old(self)
            }),
    {
        if inline_active && self.on_toolbar {
            self.on_toolbar = false;
            return StylusUp::InlineRelease;
        }
        if self.on_toolbar {
            return StylusUp::EndToolbarDrag;
        }
        if !self.on_overlay {
            return StylusUp::Ignore;
        }
        self.tip_down = false;
        StylusUp::Draw
    }

    /// Where a stylus motion goes: a running toolbar move-drag takes it first (in
    /// toolbar-local coordinates when the stylus is on a toolbar surface, else in screen
    /// coordinates); then a layer-shell toolbar under the stylus; then the inline toolbars,
    /// when active; then the drawing input, when the stylus is over the overlay.
    pub fn motion_route(&self, move_dragging: bool, inline_active: bool) -> (m: StylusMotion)
        ensures
            m == if move_dragging {
                StylusMotion::MoveDrag { toolbar_local: self.on_toolbar }
            } else if self.on_toolbar {
                StylusMotion::Toolbar
            } else if inline_active {
                StylusMotion::TryInline
            } else if self.on_overlay {
                StylusMotion::Draw
            } else {
                StylusMotion::Ignore
            },
    {
        if move_dragging {
            StylusMotion::MoveDrag { toolbar_local: self.on_toolbar }
        } else if self.on_toolbar {
            StylusMotion::Toolbar
        } else if inline_active {
            StylusMotion::TryInline
        } else if self.on_overlay {
            StylusMotion::Draw
        } else {
            StylusMotion::Ignore
        }
    }

    /// The inline toolbars saw a motion: on a hit the stylus is on a toolbar and the motion
    /// stops there; otherwise it is off the toolbars, and the motion draws when the stylus
    /// is over the overlay.
    pub fn inline_motion_result(&mut self, hit: bool) -> (draw: bool)
        ensures
            *final(self) == (StylusState { on_toolbar: hit, ..*old(self) }),
            draw == (!hit && old(self).on_overlay),
    {
        self.on_toolbar = hit;
        !hit && self.on_overlay
    }
}

/// Where a stylus motion goes (see `StylusState::motion_route`).
#[derive(Debug, Clone, Copy, PartialEq, Eq, Structural)]
pub enum StylusMotion {
    /// A toolbar move-drag follows the stylus; the toolbars are marked dirty and redrawn.
    MoveDrag { toolbar_local: bool },
    /// The layer-shell toolbar under the stylus handles the motion.
    Toolbar,
    /// Offer the motion to the inline toolbars (then `inline_motion_result`).
    TryInline,
    /// The motion moves the drawing input.
    Draw,
    /// The stylus is outside the overlay: nothing.
    Ignore,
}

/// The evdev code of the first stylus barrel button.
pub const BTN_STYLUS: u32 = 0x14b;
/// The evdev code of the second stylus barrel button.
pub const BTN_STYLUS2: u32 = 0x14c;

/// The actions bound to the two stylus barrel buttons.
#[derive(Debug, Clone, Copy, PartialEq, Eq)]
pub struct PenButtonBindings<A> {
    pub button1: Option<A>,
    pub button2: Option<A>,
}

impl<A: Copy> PenButtonBindings<A> {
    /// The action bound to `button`: the first binding for `BTN_STYLUS`, the second for
    /// `BTN_STYLUS2`, none for other buttons.
    pub open spec fn binding(self, button: u32) -> Option<A> {
        if button == BTN_STYLUS {
            self.button1
        } else if button == BTN_STYLUS2 {
            self.button2
        } else {
            None
        }
    }

    /// The action a pen-button event runs: the bound action of a pressed button (which then
    /// also asks for a redraw); nothing for releases and unbound buttons.
    pub fn action_for(&self, button: u32, pressed: bool) -> (a: Option<A>)
        ensures
            a == if pressed { self.binding(button) } else { None },
    {
        if !pressed {
            None
        } else if button == BTN_STYLUS {
            self.button1
        } else if button == BTN_STYLUS2 {
            self.button2
        } else {
            None
        }
    }
}

/// An automatic eraser switch is undone when the stylus leaves: after a proximity-in
/// that switched to the eraser, proximity-out hands back exactly the override that was in
/// force before, and leaves no switch recorded.
pub proof fn lemma_eraser_switch_restores<K>(
    s: StylusState<K>,
    on_overlay: bool,
    on_toolbar: bool,
    current_override: Option<K>,
    eraser: K,
)
    ensures
        ({
            let (near, applied) = spec_proximity_in(s, on_overlay, on_toolbar, true, true, false, current_override, eraser);
            let (gone, restored) = spec_proximity_out(near);
            &&& applied == Some(Some(eraser))
            &&& restored == Some(current_override)
            &&& !gone.auto_switched_to_eraser
        }),
{
}

/// Without a switch on the way in, the way out restores nothing.
pub proof fn lemma_no_switch_no_restore<K>(
    s: StylusState<K>,
    on_overlay: bool,
    on_toolbar: bool,
    auto_eraser_switch: bool,
    physical_eraser: bool,
    eraser_active: bool,
    current_override: Option<K>,
    eraser: K,
)
    requires
        !s.auto_switched_to_eraser,
        !(auto_eraser_switch && physical_eraser && !eraser_active),
    ensures
        ({
            let (near, applied) = spec_proximity_in(
                s,
                on_overlay,
                on_toolbar,
                auto_eraser_switch,
                physical_eraser,
                eraser_active,
                current_override,
                eraser,
            );
            applied is None && spec_proximity_out(near).1 is None
        }),
{
}

} // verus!
