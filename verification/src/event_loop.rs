//! How long one pass of the event loop may block waiting for events. Durations are whole
//! units of one clock resolution chosen by the caller; `None` means no deadline.
use vstd::prelude::*;

verus! {

pub open spec fn spec_min_timeout(a: Option<u64>, b: Option<u64>) -> Option<u64> {
    match (a, b) {
        (Some(x), Some(y)) => Some(if x <= y { x } else { y }),
        (Some(x), None) => Some(x),
        (None, Some(y)) => Some(y),
        (None, None) => None,
    }
}

/// The earlier of two optional deadlines; no deadline when neither has one.
pub fn min_timeout(a: Option<u64>, b: Option<u64>) -> (r: Option<u64>)
    ensures
        r == spec_min_timeout(a, b),
{
    match (a, b) {
        (Some(x), Some(y)) => Some(if x <= y { x } else { y }),
        (Some(x), None) => Some(x),
        (None, Some(y)) => Some(y),
        (None, None) => None,
    }
}

/// What the loop knows before it blocks.
#[derive(Debug, Clone, Copy, PartialEq, Eq, Structural)]
pub struct LoopTiming {
    /// A screen capture, freeze or zoom capture is running, or the overlay blocks the loop.
    pub capture_active: bool,
    /// The main surface has been configured.
    pub surface_configured: bool,
    pub vsync_enabled: bool,
    /// A frame callback is still outstanding.
    pub frame_callback_pending: bool,
    pub needs_redraw: bool,
    /// Time until the next UI animation frame.
    pub animation: Option<u64>,
    /// Time until the next session autosave.
    pub autosave: Option<u64>,
    /// Time until a focus-loss exit suppression ends.
    pub focus_exit: Option<u64>,
    /// Time until the frame-rate cap allows the next frame (none when unlimited).
    pub frame_cap: Option<u64>,
}

/// The loop blocks on events alone (up to the autosave and focus-exit deadlines) while a
/// capture runs, before the first configure, or while waiting for a vsync frame callback.
/// Without vsync and with a redraw due it wakes when the frame cap allows (at once when
/// frames are unlimited), or earlier for an animation. Otherwise it wakes for the next
/// animation frame, autosave or focus-exit deadline.
pub open spec fn spec_dispatch_timeout(t: LoopTiming) -> Option<u64> {
    let deadlines = spec_min_timeout(t.autosave, t.focus_exit);
    if t.capture_active || !t.surface_configured || (t.vsync_enabled && t.frame_callback_pending) {
        deadlines
    } else if !t.vsync_enabled && t.needs_redraw {
        let merged = match t.frame_cap {
            Some(fc) => spec_min_timeout(Some(fc), t.animation),
            None => Some(0u64),
        };
        spec_min_timeout(merged, deadlines)
    } else {
        spec_min_timeout(t.animation, deadlines)
    }
}

/// The dispatch timeout of one loop pass (see `spec_dispatch_timeout`).
pub fn dispatch_timeout(t: &LoopTiming) -> (r: Option<u64>)
    ensures
        r == spec_dispatch_timeout(*t),
{
    let deadlines = min_timeout(t.autosave, t.focus_exit);
    let should_block = t.capture_active || !t.surface_configured || (t.vsync_enabled && t.frame_callback_pending);
    if should_block {
        deadlines
    } else if !t.vsync_enabled && t.needs_redraw {
        let merged = match t.frame_cap {
            Some(fc) => min_timeout(Some(fc), t.animation),
            None => Some(0),
        };
        min_timeout(merged, deadlines)
    } else {
        min_timeout(t.animation, deadlines)
    }
}

/// The earlier of two deadlines is no later than either, is one of them, and does not
/// depend on their order.
pub proof fn lemma_min_timeout(a: Option<u64>, b: Option<u64>)
    ensures
        spec_min_timeout(a, b) == spec_min_timeout(b, a),
        a is Some ==> spec_min_timeout(a, b) is Some && spec_min_timeout(a, b)->0 <= a->0,
        b is Some ==> spec_min_timeout(a, b) is Some && spec_min_timeout(a, b)->0 <= b->0,
        spec_min_timeout(a, b) == a || spec_min_timeout(a, b) == b,
{
}

/// The loop never sleeps past an autosave or focus-exit deadline.
pub proof fn lemma_deadlines_respected(t: LoopTiming)
    ensures
        t.autosave is Some ==> spec_dispatch_timeout(t) is Some && spec_dispatch_timeout(t)->0 <= t.autosave->0,
        t.focus_exit is Some ==> spec_dispatch_timeout(t) is Some && spec_dispatch_timeout(t)->0
            <= t.focus_exit->0,
{
}

} // verus!
