//! Configure events of the main surface: the size an xdg window takes (from the
//! compositor, else from the first output, else from the current surface) and what a
//! layer-shell or xdg configure does to the surface state.
use vstd::prelude::*;
use crate::surface::SurfaceState;

verus! {

/// A display mode of an output, in physical pixels.
#[derive(Debug, Clone, Copy, PartialEq, Eq, Structural)]
pub struct OutputMode {
    pub width: i32,
    pub height: i32,
    pub current: bool,
    pub preferred: bool,
}

/// What is known of an output.
#[derive(Debug, Clone)]
pub struct OutputInfo {
    pub logical_size: Option<(i32, i32)>,
    pub modes: Vec<OutputMode>,
}

/// A signed size component raised to at least 1.
pub open spec fn at_least_one(v: i32) -> u32 {
    if v < 1 {
        1
    } else {
        v as u32
    }
}

/// An unsigned size component raised to at least 1.
pub open spec fn at_least_one_u(v: u32) -> u32 {
    if v < 1 {
        1
    } else {
        v
    }
}

/// A mode that is current or preferred.
pub open spec fn is_pick(m: OutputMode) -> bool {
    m.current || m.preferred
}

/// Index of the first mode that is current or preferred, if any.
pub open spec fn first_current_or_preferred(modes: Seq<OutputMode>) -> Option<int>
    decreases modes.len(),
{
    if modes.len() == 0 {
        None
    } else if is_pick(modes[0]) {
        Some(0)
    } else {
        match first_current_or_preferred(modes.skip(1)) {
            Some(i) => Some(i + 1),
            None => None,
        }
    }
}

/// The mode an output's size is taken from: the first current or preferred mode, else the
/// first mode.
pub open spec fn chosen_mode(modes: Seq<OutputMode>) -> Option<OutputMode> {
    match first_current_or_preferred(modes) {
        Some(i) => Some(modes[i]),
        None => if modes.len() > 0 {
            Some(modes[0])
        } else {
            None
        },
    }
}

/// The size an xdg window falls back to: the first output's logical size, else the size of
/// its chosen mode, else the current surface size, each component at least 1.
pub open spec fn spec_fallback_dimensions(output: Option<OutputInfo>, surface_width: u32, surface_height: u32) -> (u32, u32) {
    let from_surface = (at_least_one_u(surface_width), at_least_one_u(surface_height));
    match output {
        Some(info) => match info.logical_size {
            Some((w, h)) => (at_least_one(w), at_least_one(h)),
            None => match chosen_mode(info.modes@) {
                Some(m) => (at_least_one(m.width), at_least_one(m.height)),
                None => from_surface,
            },
        },
        None => from_surface,
    }
}

fn clamp_to_one(v: i32) -> (r: u32)
    ensures
        r == at_least_one(v),
{
    if v < 1 {
        1
    } else {
        v as u32
    }
}

proof fn lemma_first_found(modes: Seq<OutputMode>, i: int)
    requires
        0 <= i < modes.len(),
        is_pick(modes[i]),
        forall|j: int| 0 <= j < i ==> !is_pick(#[trigger] modes[j]),
    ensures
        first_current_or_preferred(modes) == Some(i),
    decreases i,
{
    if i > 0 {
        assert(!is_pick(modes[0]));
        let rest = modes.skip(1);
        assert forall|j: int| 0 <= j < i - 1 implies !is_pick(#[trigger] rest[j]) by {
            assert(rest[j] == modes[j + 1]);
        }
        lemma_first_found(rest, i - 1);
    }
}

proof fn lemma_none_found(modes: Seq<OutputMode>)
    requires
        forall|j: int| 0 <= j < modes.len() ==> !is_pick(#[trigger] modes[j]),
    ensures
        first_current_or_preferred(modes) is None,
    decreases modes.len(),
{
    if modes.len() > 0 {
        let rest = modes.skip(1);
        assert forall|j: int| 0 <= j < rest.len() implies !is_pick(#[trigger] rest[j]) by {
            assert(rest[j] == modes[j + 1]);
        }
        lemma_none_found(rest);
    }
}

fn chose_mode(modes: &Vec<OutputMode>) -> (m: Option<OutputMode>)
    ensures
        m == chosen_mode(modes@),
{
    let mut i: usize = 0;
    while i < modes.len()
        invariant
            i <= modes.len(),
            forall|j: int| 0 <= j < i ==> !is_pick(#[trigger] modes@[j]),
        decreases modes.len() - i,
    {
        if modes[i].current || modes[i].preferred {
            proof {
                lemma_first_found(modes@, i as int);
            }
            return Some(modes[i]);
        }
        assert(!is_pick(modes@[i as int]));
        i += 1;
    }
    proof {
        lemma_none_found(modes@);
    }
    if modes.len() > 0 {
        Some(modes[0])
    } else {
        None
    }
}

/// The size an xdg window falls back to when the compositor leaves it open (see
/// `spec_fallback_dimensions`).
pub fn xdg_fallback_dimensions(output: &Option<OutputInfo>, surface_width: u32, surface_height: u32) -> (dims: (
    u32,
    u32,
))
    ensures
        dims == spec_fallback_dimensions(*output, surface_width, surface_height),
{
    let from_surface = (
        if surface_width < 1 { 1 } else { surface_width },
        if surface_height < 1 { 1 } else { surface_height },
    );
    match output {
        Some(info) => match info.logical_size {
            Some((w, h)) => (clamp_to_one(w), clamp_to_one(h)),
            None => match chose_mode(&info.modes) {
                Some(m) => (clamp_to_one(m.width), clamp_to_one(m.height)),
                None => from_surface,
            },
        },
        None => from_surface,
    }
}

/// The size an xdg configure gives: each component the compositor sets (a positive
/// value), else the fallback's.
pub fn xdg_configure_size(new_width: Option<u32>, new_height: Option<u32>, fallback: (u32, u32)) -> (dims: (u32, u32))
    ensures
        dims == (
            match new_width {
                Some(w) => w,
                None => fallback.0,
            },
            match new_height {
                Some(h) => h,
                None => fallback.1,
            },
        ),
{
    let w = match new_width {
        Some(w) => w,
        None => fallback.0,
    };
    let h = match new_height {
        Some(h) => h,
        None => fallback.1,
    };
    (w, h)
}

/// What a configure did to the main surface.
#[derive(Debug, Clone, Copy, PartialEq, Eq, Structural)]
pub struct ConfigureOutcome {
    /// The size changed: all buffers must be redrawn in full.
    pub size_changed: bool,
    /// The surface had no output and adopted the first one (its surface-enter has then not
    /// been seen yet).
    pub adopted_output: bool,
}

/// The surface after a configure to `width` x `height`: resized (dropping the pool when
/// the size changes) and configured.
pub open spec fn configured_to(s: SurfaceState, width: u32, height: u32) -> SurfaceState {
    let changed = s.width != width || s.height != height;
    SurfaceState {
        width,
        height,
        has_pool: if changed { false } else { s.has_pool },
        pool_size: if changed { 0 } else { s.pool_size },
        configured: true,
        ..s
    }
}

/// Applies an xdg configure of the given size. A surface without an output first adopts
/// the first known one.
pub fn xdg_configure(surface: &mut SurfaceState, width: u32, height: u32, first_output: Option<u32>) -> (out:
    ConfigureOutcome)
    ensures
        out.adopted_output == (old(surface).current_output is None && first_output is Some),
        out.size_changed == (old(surface).width != width || old(surface).height != height),
        *final(surface) == configured_to(
            SurfaceState {
                current_output: if out.adopted_output {
                    first_output
                } else {
                    old(surface).current_output
                },
                ..*old(surface)
            },
            width,
            height,
        ),
{
    let adopted_output = surface.current_output.is_none() && first_output.is_some();
    if adopted_output {
        match first_output {
            Some(o) => surface.set_current_output(o),
            None => {},
        }
    }
    let size_changed = surface.update_dimensions(width, height);
    surface.set_configured(true);
    ConfigureOutcome { size_changed, adopted_output }
}

/// Applies a layer-shell configure: a size with both components positive is taken (an
/// empty one leaves the size to the surface); the surface is configured either way.
/// Returns whether the size changed.
pub fn layer_configure(surface: &mut SurfaceState, width: u32, height: u32) -> (size_changed: bool)
    ensures
        width > 0 && height > 0 ==> *final(surface) == configured_to(*old(surface), width, height)
            && size_changed == (old(surface).width != width || old(surface).height != height),
        !(width > 0 && height > 0) ==> *final(surface) == (SurfaceState { configured: true, ..*old(surface) })
            && !size_changed,
{
    let mut changed = false;
    if width > 0 && height > 0 {
        changed = surface.update_dimensions(width, height);
    }
    surface.set_configured(true);
    changed
}


/// Whether a captured freeze or zoom image goes stale after a resize: it does when one is
/// held and its size differs from the new physical surface size.
pub fn resize_drops_image(image_size: Option<(u32, u32)>, phys_width: u32, phys_height: u32) -> (drop: bool)
    ensures
        drop == match image_size {
            Some((w, h)) => w != phys_width || h != phys_height,
            None => false,
        },
{
    match image_size {
        Some((w, h)) => w != phys_width || h != phys_height,
        None => false,
    }
}

} // verus!
