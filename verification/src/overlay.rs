//! Focus, activation, suppression and toolbar-surface state of the Wayland overlay,
//! and the decisions the backend takes on them.
use vstd::prelude::*;
use crate::presentation::PresentationMode;

verus! {

/// How the overlay behaves once a capture completes.
#[derive(Debug, Clone, Copy, PartialEq, Eq, Structural)]
pub enum ExitAfterCaptureMode {
    Auto,
    Always,
    Never,
}

/// Which toolbar a move-drag is repositioning.
#[derive(Debug, Clone, Copy, PartialEq, Eq, Structural)]
pub enum MoveDragKind {
    Top,
    Side,
}

/// Why the overlay is currently hidden from input and capture.
#[derive(Debug, Clone, Copy, PartialEq, Eq, Structural)]
pub enum OverlaySuppression {
    Inactive,
    Capture,
    Frozen,
    Zoom,
}

/// Keyboard interactivity of a layer-shell surface.
#[derive(Debug, Clone, Copy, PartialEq, Eq, Structural)]
pub enum KeyboardInteractivity {
    Disabled,
    Exclusive,
    OnDemand,
}

/// The layer-shell layer the main surface is mapped in.
#[derive(Debug, Clone, Copy, PartialEq, Eq, Structural)]
pub enum SurfaceLayer {
    Top,
    Overlay,
}

/// Focus/pointer/toolbar interaction data of the overlay, as plain values. Times are
/// milliseconds on a monotonic clock chosen by the caller.
#[derive(Debug, Clone)]
pub struct StateData {
    pub has_keyboard_focus: bool,
    pub has_pointer_focus: bool,
    pub current_mouse_x: i32,
    pub current_mouse_y: i32,
    /// Protocol id of the current seat, if one is known.
    pub current_seat_id: Option<u32>,
    pub last_activation_serial: Option<u32>,
    pub pointer_over_toolbar: bool,
    pub toolbar_dragging: bool,
    pub toolbar_drag_preview: bool,
    pub current_keyboard_interactivity: Option<KeyboardInteractivity>,
    pub toolbar_needs_recreate: bool,
    pub toolbar_layer_shell_missing_logged: bool,
    pub inline_toolbars: bool,
    pub toolbar_configure_miss_count: u32,
    pub last_applied_top_margin: Option<i32>,
    pub last_applied_side_margin: Option<i32>,
    pub last_applied_top_margin_top: Option<i32>,
    pub last_applied_side_margin_left: Option<i32>,
    pub active_drag_kind: Option<MoveDragKind>,
    pub toolbar_drag_pending_apply: bool,
    pub pending_activation_token: Option<String>,
    pub startup_activation_token: Option<String>,
    pub pending_freeze_on_start: bool,
    pub frozen_enabled: bool,
    pub has_seen_surface_enter: bool,
    pub preferred_output_identity: Option<String>,
    pub main_surface_uses_overlay_layer: bool,
    pub overlay_suppression: OverlaySuppression,
    /// True when surface is configured and has keyboard focus; keys are blocked until ready.
    pub overlay_ready: bool,
    /// Suppress the next pointer release after a modal click (e.g., command palette).
    pub suppress_next_release: bool,
    /// Suppress overlay exit on focus loss until this time (e.g., clipboard helpers).
    pub suppress_focus_exit_until: Option<u64>,
    /// Until this time, compositor close requests are ignored in stay mode after xdg focus loss.
    pub xdg_close_guard_until: Option<u64>,
    /// Explicit compositor close request received for xdg fallback window.
    pub xdg_explicit_close_requested: bool,
    pub presentation_mode: PresentationMode,
    pub exit_after_capture_mode: ExitAfterCaptureMode,
}

/// What entering or leaving a suppression asks of the surfaces.
#[derive(Debug, Clone, Copy, PartialEq, Eq, Structural)]
pub struct SuppressionChange {
    /// Whether the suppression state changed at all.
    pub changed: bool,
    /// The click-through setting to apply to the main and toolbar surfaces, if any
    /// (only overlays can pass input through).
    pub clickthrough: Option<bool>,
    /// A redraw of the overlay is forced (whenever the suppression changed).
    pub redraw: bool,
    /// The toolbars are marked dirty (whenever the suppression changed).
    pub mark_toolbar_dirty: bool,
    /// The keyboard interactivity is to be refreshed (when a suppression was left).
    pub refresh_keyboard: bool,
}

/// What restoring the overlay after a capture asks of the caller.
#[derive(Debug, Clone, Copy, PartialEq, Eq, Structural)]
pub struct ShowOverlay {
    /// The click highlights are cleared.
    pub clear_click_highlights: bool,
    /// A redraw is forced, whatever the suppression was.
    pub redraw: bool,
    /// The change of leaving the capture suppression.
    pub change: SuppressionChange,
}

/// What the activation logic asks of the xdg-activation protocol.
#[derive(Debug, Clone, PartialEq, Eq)]
pub enum ActivationRequest {
    /// Nothing to do.
    Nothing,
    /// Request a token for the current seat and keyboard-enter serial.
    RequestToken { seat_id: u32, serial: u32 },
    /// No serial yet: a placeholder token was recorded; retry on keyboard enter.
    Deferred,
}

/// Cannot ignore a close request unless the window stays open on focus loss, lacks focus,
/// and the guard window after focus loss is still running.
pub fn should_ignore_xdg_close_request(
    stay_mode: bool,
    has_keyboard_focus: bool,
    close_guard_active: bool,
) -> (b: bool)
    ensures
        b == (stay_mode && !has_keyboard_focus && close_guard_active),
{
    stay_mode && !has_keyboard_focus && close_guard_active
}

/// Keyboard interactivity the main surface wants when it is not suppressed: separate
/// layer-shell toolbar surfaces need focus to move to them, so the main surface then only
/// takes focus on demand; otherwise it holds the keyboard exclusively.
/// The token slot holds the empty placeholder that marks a deferred activation.
pub open spec fn holds_placeholder(token: Option<String>) -> bool {
    match token {
        Some(t) => t@.len() == 0,
        None => false,
    }
}

/// The suppression after entering `reason`: only an inactive overlay takes it.
pub open spec fn suppression_after_enter(current: OverlaySuppression, reason: OverlaySuppression) -> OverlaySuppression {
    if current == OverlaySuppression::Inactive {
        reason
    } else {
        current
    }
}

/// The suppression after leaving `reason`: only the active reason is cleared.
pub open spec fn suppression_after_exit(current: OverlaySuppression, reason: OverlaySuppression) -> OverlaySuppression {
    if current == reason {
        OverlaySuppression::Inactive
    } else {
        current
    }
}

/// Entering and then leaving a suppression (any reason, the inactive one included) restores
/// an inactive overlay; leaving a reason that is not active, or entering while another is
/// active, changes nothing.
pub proof fn lemma_suppression_round_trip(current: OverlaySuppression, reason: OverlaySuppression, other: OverlaySuppression)
    ensures
        suppression_after_exit(suppression_after_enter(OverlaySuppression::Inactive, reason), reason)
            == OverlaySuppression::Inactive,
        current != OverlaySuppression::Inactive ==> suppression_after_enter(current, reason) == current,
        current != other ==> suppression_after_exit(current, other) == current,
{
}

pub open spec fn spec_interactivity_for(layer_shell: bool, toolbar_visible: bool, inline_active: bool) -> KeyboardInteractivity {
    if layer_shell && toolbar_visible && !inline_active {
        KeyboardInteractivity::OnDemand
    } else {
        KeyboardInteractivity::Exclusive
    }
}

pub fn desired_keyboard_interactivity_for(
    layer_shell: bool,
    toolbar_visible: bool,
    inline_active: bool,
) -> (k: KeyboardInteractivity)
    ensures
        k == spec_interactivity_for(layer_shell, toolbar_visible, inline_active),
{
    if layer_shell && toolbar_visible && !inline_active {
        KeyboardInteractivity::OnDemand
    } else {
        KeyboardInteractivity::Exclusive
    }
}

/// The activation request owed to an xdg window: none when activation is impossible, a
/// token request when both the seat and a keyboard-enter serial are known, else a deferral.
pub open spec fn spec_activation_plan(able: bool, seat: Option<u32>, serial: Option<u32>) -> ActivationRequest {
    if !able {
        ActivationRequest::Nothing
    } else {
        match (seat, serial) {
            (Some(seat_id), Some(serial)) => ActivationRequest::RequestToken { seat_id, serial },
            _ => ActivationRequest::Deferred,
        }
    }
}

fn plan_activation(able: bool, seat: Option<u32>, serial: Option<u32>) -> (r: ActivationRequest)
    ensures
        r == spec_activation_plan(able, seat, serial),
{
    if !able {
        return ActivationRequest::Nothing;
    }
    match (seat, serial) {
        (Some(seat_id), Some(serial)) => ActivationRequest::RequestToken { seat_id, serial },
        _ => ActivationRequest::Deferred,
    }
}

/// The pending token after a retry: the placeholder again when the retry was deferred,
/// nothing when the retry went ahead, else the token as it was.
fn next_pending_token(current: Option<String>, deferred: bool, retry: bool) -> (t: Option<String>)
    ensures
        deferred ==> holds_placeholder(t),
        !deferred ==> t == if retry { None } else { current },
{
    if deferred {
        Some(String::new())
    } else if retry {
        None
    } else {
        current
    }
}

impl StateData {
    /// The interaction data of a new overlay: no focus, pointer at the origin, no seat or
    /// serial, toolbars to be created, nothing suppressed, pending or recorded.
    pub open spec fn fresh(presentation_mode: PresentationMode, exit_after_capture_mode: ExitAfterCaptureMode) -> StateData {
        StateData {
            has_keyboard_focus: false,
            has_pointer_focus: false,
            current_mouse_x: 0,
            current_mouse_y: 0,
            current_seat_id: None,
            last_activation_serial: None,
            pointer_over_toolbar: false,
            toolbar_dragging: false,
            toolbar_drag_preview: false,
            current_keyboard_interactivity: None,
            toolbar_needs_recreate: true,
            toolbar_layer_shell_missing_logged: false,
            inline_toolbars: false,
            toolbar_configure_miss_count: 0,
            last_applied_top_margin: None,
            last_applied_side_margin: None,
            last_applied_top_margin_top: None,
            last_applied_side_margin_left: None,
            active_drag_kind: None,
            toolbar_drag_pending_apply: false,
            pending_activation_token: None,
            startup_activation_token: None,
            pending_freeze_on_start: false,
            frozen_enabled: false,
            has_seen_surface_enter: false,
            preferred_output_identity: None,
            main_surface_uses_overlay_layer: false,
            overlay_suppression: OverlaySuppression::Inactive,
            overlay_ready: false,
            suppress_next_release: false,
            suppress_focus_exit_until: None,
            xdg_close_guard_until: None,
            xdg_explicit_close_requested: false,
            presentation_mode,
            exit_after_capture_mode,
        }
    }

    /// Fresh interaction data for a new overlay.
    pub fn new(presentation_mode: PresentationMode, exit_after_capture_mode: ExitAfterCaptureMode) -> (d: StateData)
        ensures
            d == StateData::fresh(presentation_mode, exit_after_capture_mode),
    {
        StateData {
            has_keyboard_focus: false,
            has_pointer_focus: false,
            current_mouse_x: 0,
            current_mouse_y: 0,
            current_seat_id: None,
            last_activation_serial: None,
            pointer_over_toolbar: false,
            toolbar_dragging: false,
            toolbar_drag_preview: false,
            current_keyboard_interactivity: None,
            toolbar_needs_recreate: true,
            toolbar_layer_shell_missing_logged: false,
            inline_toolbars: false,
            toolbar_configure_miss_count: 0,
            last_applied_top_margin: None,
            last_applied_side_margin: None,
            last_applied_top_margin_top: None,
            last_applied_side_margin_left: None,
            active_drag_kind: None,
            toolbar_drag_pending_apply: false,
            pending_activation_token: None,
            startup_activation_token: None,
            pending_freeze_on_start: false,
            frozen_enabled: false,
            has_seen_surface_enter: false,
            preferred_output_identity: None,
            main_surface_uses_overlay_layer: false,
            overlay_suppression: OverlaySuppression::Inactive,
            overlay_ready: false,
            suppress_next_release: false,
            suppress_focus_exit_until: None,
            xdg_close_guard_until: None,
            xdg_explicit_close_requested: false,
            presentation_mode,
            exit_after_capture_mode,
        }
    }

    /// The interaction data a starting overlay begins with: the startup flags recorded, and
    /// inline toolbars whenever layer-shell is missing, forced, or the main surface sits in
    /// the overlay layer (separate toolbar surfaces would be covered there).
    pub fn for_startup(
        presentation_mode: PresentationMode,
        exit_after_capture_mode: ExitAfterCaptureMode,
        frozen_enabled: bool,
        pending_freeze_on_start: bool,
        startup_activation_token: Option<String>,
        preferred_output_identity: Option<String>,
        main_surface_uses_overlay_layer: bool,
        layer_shell_available: bool,
        force_inline_toolbars: bool,
    ) -> (d: StateData)
        ensures
            d == (StateData {
                frozen_enabled,
                pending_freeze_on_start,
                startup_activation_token,
                preferred_output_identity,
                main_surface_uses_overlay_layer,
                inline_toolbars: !layer_shell_available || force_inline_toolbars || main_surface_uses_overlay_layer,
                ..StateData::fresh(presentation_mode, exit_after_capture_mode)
            }),
    {
        let mut d = StateData::new(presentation_mode, exit_after_capture_mode);
        d.frozen_enabled = frozen_enabled;
        d.pending_freeze_on_start = pending_freeze_on_start;
        d.startup_activation_token = startup_activation_token;
        d.preferred_output_identity = preferred_output_identity;
        d.main_surface_uses_overlay_layer = main_surface_uses_overlay_layer;
        d.inline_toolbars = !layer_shell_available || force_inline_toolbars
            || main_surface_uses_overlay_layer;
        d
    }

    pub fn current_mouse(&self) -> (p: (i32, i32))
        ensures
            p == (self.current_mouse_x, self.current_mouse_y),
    {
        (self.current_mouse_x, self.current_mouse_y)
    }

    pub fn set_current_mouse(&mut self, x: i32, y: i32)
        ensures
            *final(self) == (StateData { current_mouse_x: x, current_mouse_y: y, ..*old(self) }),
    {
        self.current_mouse_x = x;
        self.current_mouse_y = y;
    }

    /// The time left before focus-loss exits are allowed again, if a suppression is still running.
    pub fn focus_exit_timeout(&self, now: u64) -> (t: Option<u64>)
        ensures
            t == match self.suppress_focus_exit_until {
                Some(until) => if until > now { Some((until - now) as u64) } else { None },
                None => None,
            },
    {
        match self.suppress_focus_exit_until {
            Some(until) => if until > now {
                Some(until - now)
            } else {
                None
            },
            None => None,
        }
    }

    /// Suppresses focus-loss exits for `duration` from `now` (saturating at the clock's end).
    pub fn suppress_focus_exit_for(&mut self, now: u64, duration: u64)
        ensures
            final(self).suppress_focus_exit_until == Some(
                if now + duration <= u64::MAX { (now + duration) as u64 } else { u64::MAX },
            ),
            *final(self) == (StateData {
                suppress_focus_exit_until: final(self).suppress_focus_exit_until,
                ..*old(self)
            }),
    {
        let until = if duration <= u64::MAX - now { now + duration } else { u64::MAX };
        self.suppress_focus_exit_until = Some(until);
    }

    pub fn clear_focus_exit_suppression(&mut self)
        ensures
            *final(self) == (StateData { suppress_focus_exit_until: None, ..*old(self) }),
    {
        self.suppress_focus_exit_until = None;
    }

    /// Whether the close guard after xdg focus loss is still running at `now`.
    pub fn xdg_close_guard_active(&self, now: u64) -> (b: bool)
        ensures
            b == (self.xdg_close_guard_until matches Some(until) && until > now),
    {
        match self.xdg_close_guard_until {
            Some(until) => until > now,
            None => false,
        }
    }

    /// Takes the launcher's activation token (it is used at most once).
    pub fn take_startup_activation_token(&mut self) -> (token: Option<String>)
        ensures
            token == old(self).startup_activation_token,
            *final(self) == (StateData { startup_activation_token: None, ..*old(self) }),
    {
        let t = self.startup_activation_token.take();
        t
    }

    /// The layer the main surface is mapped in.
    pub fn main_surface_layer(&self) -> (l: SurfaceLayer)
        ensures
            l == if self.main_surface_uses_overlay_layer { SurfaceLayer::Overlay } else { SurfaceLayer::Top },
    {
        if self.main_surface_uses_overlay_layer {
            SurfaceLayer::Overlay
        } else {
            SurfaceLayer::Top
        }
    }

    pub fn overlay_suppressed(&self) -> (b: bool)
        ensures
            b == (self.overlay_suppression != OverlaySuppression::Inactive),
    {
        self.overlay_suppression != OverlaySuppression::Inactive
    }

    /// Capture, freeze and zoom suppressions block the event loop until they finish.
    pub fn overlay_blocks_event_loop(&self) -> (b: bool)
        ensures
            b == (self.overlay_suppression == OverlaySuppression::Capture
                || self.overlay_suppression == OverlaySuppression::Frozen
                || self.overlay_suppression == OverlaySuppression::Zoom),
    {
        matches!(
            self.overlay_suppression,
            OverlaySuppression::Capture | OverlaySuppression::Frozen | OverlaySuppression::Zoom
        )
    }

    pub fn capture_suppressed(&self) -> (b: bool)
        ensures
            b == (self.overlay_suppression == OverlaySuppression::Capture),
    {
        self.overlay_suppression == OverlaySuppression::Capture
    }

    /// Enters a suppression unless one is already active. Entering makes the overlay
    /// click-through (in overlay presentation), drops its keyboard interactivity when it
    /// has a layer surface, forces a redraw and marks the toolbars dirty. Entering with the
    /// inactive reason on an inactive overlay keeps it inactive but has the same effects.
    pub fn enter_overlay_suppression(&mut self, reason: OverlaySuppression, has_layer_surface: bool) -> (c: SuppressionChange)
        ensures
            final(self).overlay_suppression == suppression_after_enter(old(self).overlay_suppression, reason),
            final(self).current_keyboard_interactivity
                == if old(self).overlay_suppression == OverlaySuppression::Inactive && has_layer_surface {
                Some(KeyboardInteractivity::Disabled)
            } else {
                old(self).current_keyboard_interactivity
            },
            *final(self) == (StateData {
                overlay_suppression: final(self).overlay_suppression,
                current_keyboard_interactivity: final(self).current_keyboard_interactivity,
                ..*old(self)
            }),
            c.changed == (old(self).overlay_suppression == OverlaySuppression::Inactive),
            c.clickthrough == if c.changed && old(self).presentation_mode == PresentationMode::Overlay {
                Some(true)
            } else {
                None
            },
            c.redraw == c.changed,
            c.mark_toolbar_dirty == c.changed,
            !c.refresh_keyboard,
    {
        let changed = self.overlay_suppression == OverlaySuppression::Inactive;
        let next = if changed { reason } else { self.overlay_suppression };
        let next_keyboard = if changed && has_layer_surface {
            Some(KeyboardInteractivity::Disabled)
        } else {
            self.current_keyboard_interactivity
        };
        self.overlay_suppression = next;
        self.current_keyboard_interactivity = next_keyboard;
        let clickthrough = if changed && self.presentation_mode.allows_passthrough() {
            Some(true)
        } else {
            None
        };
        SuppressionChange {
            changed,
            clickthrough,
            redraw: changed,
            mark_toolbar_dirty: changed,
            refresh_keyboard: false,
        }
    }

    /// Leaves a suppression, only when it is the active one. Leaving makes the overlay take
    /// input again (in overlay presentation), refreshes the keyboard interactivity, forces a
    /// redraw and marks the toolbars dirty.
    pub fn exit_overlay_suppression(&mut self, reason: OverlaySuppression) -> (c: SuppressionChange)
        ensures
            final(self).overlay_suppression == suppression_after_exit(old(self).overlay_suppression, reason),
            *final(self) == (StateData { overlay_suppression: final(self).overlay_suppression, ..*old(self) }),
            c.changed == (old(self).overlay_suppression == reason),
            c.clickthrough == if c.changed && old(self).presentation_mode == PresentationMode::Overlay {
                Some(false)
            } else {
                None
            },
            c.redraw == c.changed,
            c.mark_toolbar_dirty == c.changed,
            c.refresh_keyboard == c.changed,
    {
        let changed = self.overlay_suppression == reason;
        let next = if changed { OverlaySuppression::Inactive } else { self.overlay_suppression };
        self.overlay_suppression = next;
        let clickthrough = if changed && self.presentation_mode.allows_passthrough() {
            Some(false)
        } else {
            None
        };
        SuppressionChange {
            changed,
            clickthrough,
            redraw: changed,
            mark_toolbar_dirty: changed,
            refresh_keyboard: changed,
        }
    }

    /// Restores the overlay once a screenshot capture completes: the click highlights are
    /// cleared, the capture suppression is left (see `exit_overlay_suppression`), and a
    /// redraw is forced.
    pub fn show_overlay(&mut self) -> (r: ShowOverlay)
        ensures
            r.clear_click_highlights,
            r.redraw,
            final(self).overlay_suppression == suppression_after_exit(
                old(self).overlay_suppression,
                OverlaySuppression::Capture,
            ),
            *final(self) == (StateData { overlay_suppression: final(self).overlay_suppression, ..*old(self) }),
            r.change.changed == (old(self).overlay_suppression == OverlaySuppression::Capture),
            r.change.clickthrough == if r.change.changed && old(self).presentation_mode
                == PresentationMode::Overlay {
                Some(false)
            } else {
                None
            },
            r.change.redraw == r.change.changed,
            r.change.mark_toolbar_dirty == r.change.changed,
            r.change.refresh_keyboard == r.change.changed,
    {
        let change = self.exit_overlay_suppression(OverlaySuppression::Capture);
        ShowOverlay { clear_click_highlights: true, redraw: true, change }
    }

    /// Settles a freeze start, made after entering the frozen suppression: when the freeze
    /// capture failed to start, the frozen suppression is left again and the freeze capture
    /// is to be cancelled; when it started, nothing changes.
    pub fn settle_freeze_start(&mut self, started: bool) -> (undo: Option<SuppressionChange>)
        ensures
            started ==> undo is None && *final(self) == *old(self),
            !started ==> {
                &&& final(self).overlay_suppression == suppression_after_exit(
                    old(self).overlay_suppression,
                    OverlaySuppression::Frozen,
                )
                &&& *final(self) == (StateData {
                    overlay_suppression: final(self).overlay_suppression,
                    ..*old(self)
                })
                &&& undo matches Some(c) && c.changed == (old(self).overlay_suppression
                    == OverlaySuppression::Frozen) && c.redraw == c.changed && c.mark_toolbar_dirty
                    == c.changed && c.refresh_keyboard == c.changed && c.clickthrough == if c.changed
                    && old(self).presentation_mode == PresentationMode::Overlay {
                    Some(false)
                } else {
                    None
                }
            },
    {
        if started {
            None
        } else {
            Some(self.exit_overlay_suppression(OverlaySuppression::Frozen))
        }
    }

    /// A suppressed overlay takes no keyboard input; otherwise the layer rule applies.
    pub open spec fn desired_interactivity(self, layer_shell: bool, toolbar_visible: bool, inline_active: bool) -> KeyboardInteractivity {
        if self.overlay_suppression != OverlaySuppression::Inactive {
            KeyboardInteractivity::Disabled
        } else {
            spec_interactivity_for(layer_shell, toolbar_visible, inline_active)
        }
    }

    /// Keyboard interactivity the main surface should have now.
    pub fn desired_keyboard_interactivity(&self, layer_shell: bool, toolbar_visible: bool, inline_active: bool) -> (k: KeyboardInteractivity)
        ensures
            k == self.desired_interactivity(layer_shell, toolbar_visible, inline_active),
    {
        if self.overlay_suppressed() {
            return KeyboardInteractivity::Disabled;
        }
        desired_keyboard_interactivity_for(layer_shell, toolbar_visible, inline_active)
    }

    /// Brings the recorded keyboard interactivity in line with the desired one; returns the
    /// value to apply to the layer surface when it changed. Windowed surfaces have no such
    /// setting; without a layer surface nothing is recorded.
    pub fn refresh_keyboard_interactivity(
        &mut self,
        has_layer_surface: bool,
        layer_shell: bool,
        toolbar_visible: bool,
        inline_active: bool,
    ) -> (apply: Option<KeyboardInteractivity>)
        ensures
            final(self).current_keyboard_interactivity == if old(self).presentation_mode == PresentationMode::Windowed {
                old(self).current_keyboard_interactivity
            } else if !has_layer_surface {
                None
            } else {
                Some(old(self).desired_interactivity(layer_shell, toolbar_visible, inline_active))
            },
            *final(self) == (StateData {
                current_keyboard_interactivity: final(self).current_keyboard_interactivity,
                ..*old(self)
            }),
            apply == if old(self).presentation_mode != PresentationMode::Windowed && has_layer_surface
                && old(self).current_keyboard_interactivity != Some(
                old(self).desired_interactivity(layer_shell, toolbar_visible, inline_active),
            ) {
                Some(old(self).desired_interactivity(layer_shell, toolbar_visible, inline_active))
            } else {
                None
            },
    {
        let desired = self.desired_keyboard_interactivity(layer_shell, toolbar_visible, inline_active);
        let windowed = self.presentation_mode.is_windowed();
        let same = match self.current_keyboard_interactivity {
            Some(k) => k == desired,
            None => false,
        };
        let next = if windowed {
            self.current_keyboard_interactivity
        } else if !has_layer_surface {
            None
        } else {
            Some(desired)
        };
        self.current_keyboard_interactivity = next;
        if !windowed && has_layer_surface && !same {
            Some(desired)
        } else {
            None
        }
    }

    /// Clears cached toolbar margins so recreated/hidden toolbars reapply offsets once.
    pub fn reset_toolbar_margin_cache(&mut self)
        ensures
            *final(self) == (StateData {
                last_applied_top_margin: None,
                last_applied_top_margin_top: None,
                last_applied_side_margin: None,
                last_applied_side_margin_left: None,
                ..*old(self)
            }),
    {
        self.last_applied_top_margin = None;
        self.last_applied_top_margin_top = None;
        self.last_applied_side_margin = None;
        self.last_applied_side_margin_left = None;
    }

    /// Keyboard focus entered the overlay with `serial`: record focus and serial, drop any
    /// focus-exit suppression, and become ready when the surface is configured.
    pub fn keyboard_enter(&mut self, serial: u32, surface_configured: bool)
        ensures
            *final(self) == (StateData {
                has_keyboard_focus: true,
                suppress_focus_exit_until: None,
                last_activation_serial: Some(serial),
                overlay_ready: if surface_configured { true } else { old(self).overlay_ready },
                ..*old(self)
            }),
    {
        self.has_keyboard_focus = true;
        self.suppress_focus_exit_until = None;
        self.last_activation_serial = Some(serial);
        if surface_configured {
            self.overlay_ready = true;
        }
    }

    /// Keyboard focus left: no focus, not ready.
    pub fn keyboard_leave(&mut self)
        ensures
            *final(self) == (StateData { has_keyboard_focus: false, overlay_ready: false, ..*old(self) }),
    {
        self.has_keyboard_focus = false;
        self.overlay_ready = false;
    }

    /// The surface was configured: it becomes ready if it already has keyboard focus.
    /// Returns whether it just became ready.
    pub fn surface_configured(&mut self) -> (became_ready: bool)
        ensures
            became_ready == (old(self).has_keyboard_focus && !old(self).overlay_ready),
            *final(self) == (StateData {
                overlay_ready: old(self).overlay_ready || old(self).has_keyboard_focus,
                ..*old(self)
            }),
    {
        if self.has_keyboard_focus && !self.overlay_ready {
            self.overlay_ready = true;
            true
        } else {
            false
        }
    }

    /// Whether the launcher's token can activate the xdg window now; takes the token when so.
    pub fn activate_xdg_window_with_startup_token_if_present(
        &mut self,
        is_xdg_window: bool,
        activation_available: bool,
        has_wl_surface: bool,
    ) -> (token: Option<String>)
        ensures
            !is_xdg_window ==> *final(self) == *old(self) && token is None,
            is_xdg_window ==> {
                &&& *final(self) == (StateData { startup_activation_token: None, ..*old(self) })
                &&& token == (if activation_available && has_wl_surface {
                    old(self).startup_activation_token
                } else {
                    None
                })
            },
    {
        if !is_xdg_window {
            return None;
        }
        let token = self.take_startup_activation_token();
        match token {
            None => None,
            Some(t) => if activation_available && has_wl_surface {
                Some(t)
            } else {
                None
            },
        }
    }

    /// Asks for an activation token for the xdg window: with a seat and a keyboard-enter
    /// serial it requests one, otherwise it leaves an empty placeholder token to retry later.
    pub fn request_xdg_activation(&mut self, is_xdg_window: bool, activation_available: bool, has_wl_surface: bool) -> (r: ActivationRequest)
        ensures
            ({
                let r0 = spec_activation_plan(
                    is_xdg_window && activation_available && has_wl_surface,
                    old(self).current_seat_id,
                    old(self).last_activation_serial,
                );
                &&& r == r0
                &&& *final(self) == (StateData {
                    pending_activation_token: final(self).pending_activation_token,
                    ..*old(self)
                })
                &&& r0 is Deferred ==> holds_placeholder(final(self).pending_activation_token)
                &&& !(r0 is Deferred) ==> final(self).pending_activation_token == old(self).pending_activation_token
            }),
    {
        let able = is_xdg_window && activation_available && has_wl_surface;
        let r = plan_activation(able, self.current_seat_id, self.last_activation_serial);
        let current = self.pending_activation_token.take();
        self.pending_activation_token = if matches!(r, ActivationRequest::Deferred) {
            Some(String::new())
        } else {
            current
        };
        r
    }

    /// A requested token arrived: it is recorded, and then used right away when possible
    /// (returned for activation, and cleared).
    pub fn new_token(&mut self, token: String, is_xdg_window: bool, activation_available: bool, has_wl_surface: bool) -> (activate: Option<String>)
        ensures
            (is_xdg_window && activation_available && has_wl_surface) ==> activate == Some(token)
                && *final(self) == (StateData { pending_activation_token: None, ..*old(self) }),
            !(is_xdg_window && activation_available && has_wl_surface) ==> activate is None
                && *final(self) == (StateData { pending_activation_token: Some(token), ..*old(self) }),
    {
        if is_xdg_window && activation_available && has_wl_surface {
            self.pending_activation_token = None;
            Some(token)
        } else {
            self.pending_activation_token = Some(token);
            None
        }
    }

    /// After a keyboard enter supplied a serial, a deferred activation is retried: the
    /// placeholder is dropped and the request made again.
    pub fn maybe_retry_activation(&mut self, is_xdg_window: bool, activation_available: bool, has_wl_surface: bool) -> (r: ActivationRequest)
        ensures
            ({
                let retry = old(self).pending_activation_token is Some && old(self).last_activation_serial is Some;
                let r0 = spec_activation_plan(
                    retry && is_xdg_window && activation_available && has_wl_surface,
                    old(self).current_seat_id,
                    old(self).last_activation_serial,
                );
                &&& r == r0
                &&& *final(self) == (StateData {
                    pending_activation_token: final(self).pending_activation_token,
                    ..*old(self)
                })
                &&& r0 is Deferred ==> holds_placeholder(final(self).pending_activation_token)
                &&& !(r0 is Deferred) ==> final(self).pending_activation_token
                    == if retry { None } else { old(self).pending_activation_token }
            }),
    {
        let current = self.pending_activation_token.take();
        let retry = current.is_some() && self.last_activation_serial.is_some();
        let able = is_xdg_window && activation_available && has_wl_surface;
        let r = plan_activation(retry && able, self.current_seat_id, self.last_activation_serial);
        let deferred = matches!(r, ActivationRequest::Deferred);
        self.pending_activation_token = next_pending_token(current, deferred, retry);
        r
    }
}

} // verus!
