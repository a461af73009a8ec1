//! Whether the zoomed view is being panned by dragging. The view's scale and offsets are
//! floating point and kept by the caller.
use vstd::prelude::*;

verus! {

/// The panning flag of the zoom view.
#[derive(Debug, Clone, Copy, PartialEq, Eq, Structural)]
pub struct ZoomPanState {
    pub panning: bool,
}

impl ZoomPanState {
    /// Not panning.
    pub fn new() -> (z: ZoomPanState)
        ensures
            !z.panning,
    {
        ZoomPanState { panning: false }
    }

    /// A pan drag starts (the caller records where it started).
    pub fn start_pan(&mut self)
        ensures
            final(self).panning,
    {
        self.panning = true;
    }

    /// The pan drag ends.
    pub fn stop_pan(&mut self)
        ensures
            !final(self).panning,
    {
        self.panning = false;
    }
}

} // verus!
