//! How the overlay surface is presented and what that allows.
use vstd::prelude::*;

verus! {

/// Whether the wayscriber surface is mounted as a fullscreen layer-shell overlay
/// or as a regular xdg-toplevel window. Determines which compositor features the
/// surface can use (passthrough, capture, output-switching, freeze) and which
/// shell-protocol path the backend takes.
#[derive(Debug, Clone, Copy, PartialEq, Eq, Structural)]
pub enum PresentationMode {
    Overlay,
    Windowed,
}

impl PresentationMode {
    /// The default presentation is the fullscreen overlay.
    pub fn default_mode() -> (mode: PresentationMode)
        ensures
            mode == PresentationMode::Overlay,
    {
        PresentationMode::Overlay
    }

    pub fn is_overlay(self) -> (b: bool)
        ensures
            b == (self == PresentationMode::Overlay),
    {
        matches!(self, PresentationMode::Overlay)
    }

    pub fn is_windowed(self) -> (b: bool)
        ensures
            b == (self == PresentationMode::Windowed),
    {
        matches!(self, PresentationMode::Windowed)
    }

    pub fn allows_passthrough(self) -> (b: bool)
        ensures
            b == (self == PresentationMode::Overlay),
    {
        self.is_overlay()
    }

    pub fn allows_capture(self) -> (b: bool)
        ensures
            b == (self == PresentationMode::Overlay),
    {
        self.is_overlay()
    }

    pub fn allows_freeze(self) -> (b: bool)
        ensures
            b == (self == PresentationMode::Overlay),
    {
        self.is_overlay()
    }

    pub fn allows_output_switching(self) -> (b: bool)
        ensures
            b == (self == PresentationMode::Overlay),
    {
        self.is_overlay()
    }
}

} // verus!
