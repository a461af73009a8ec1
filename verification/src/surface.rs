//! Bookkeeping of the main surface: its shell role, size, scale, configure and frame
//! state, and the shared-memory buffer pool (whose allocation the caller performs).
use vstd::prelude::*;

verus! {

/// The shell role of the main surface.
#[derive(Debug, Clone, Copy, PartialEq, Eq, Structural)]
pub enum SurfaceKind {
    Layer,
    Xdg,
}

/// Where a new buffer scale has to be applied.
#[derive(Debug, Clone, Copy, PartialEq, Eq, Structural)]
pub enum ScaleTarget {
    /// The layer surface.
    LayerSurface,
    /// The plain wl_surface (of an xdg window).
    WlSurface,
    /// No surface exists yet.
    Nothing,
}

/// State of the main surface. Outputs are identified by their protocol id.
#[derive(Debug, Clone, Copy, PartialEq, Eq, Structural)]
pub struct SurfaceState {
    pub kind: Option<SurfaceKind>,
    pub has_pool: bool,
    /// Incremented whenever a new pool is created, so that damage tracking can tell that
    /// earlier buffers are gone.
    pub pool_generation: u64,
    /// Last known pool size in bytes.
    pub pool_size: usize,
    pub current_output: Option<u32>,
    pub width: u32,
    pub height: u32,
    pub scale: i32,
    pub configured: bool,
    pub frame_callback_pending: bool,
}

/// `a * b`, or the largest `u32` when the product does not fit.
pub open spec fn saturating_mul_u32(a: u32, b: u32) -> u32 {
    if a * b <= u32::MAX {
        (a * b) as u32
    } else {
        u32::MAX
    }
}

fn saturating_mul(a: u32, b: u32) -> (r: u32)
    ensures
        r == saturating_mul_u32(a, b),
{
    assert((a as u64) * (b as u64) <= u64::MAX) by (nonlinear_arith)
        requires
            a <= u32::MAX,
            b <= u32::MAX,
    ;
    let wide = (a as u64) * (b as u64);
    if wide <= u32::MAX as u64 {
        wide as u32
    } else {
        u32::MAX
    }
}

impl SurfaceState {
    /// A surface without a shell role, unconfigured, at scale 1.
    pub fn new() -> (s: SurfaceState)
        ensures
            s == (SurfaceState {
                kind: None,
                has_pool: false,
                pool_generation: 0,
                pool_size: 0,
                current_output: None,
                width: 0,
                height: 0,
                scale: 1,
                configured: false,
                frame_callback_pending: false,
            }),
    {
        SurfaceState {
            kind: None,
            has_pool: false,
            pool_generation: 0,
            pool_size: 0,
            current_output: None,
            width: 0,
            height: 0,
            scale: 1,
            configured: false,
            frame_callback_pending: false,
        }
    }

    /// A new shell surface: it takes the given role and invalidates the pool, the output
    /// and the configure and frame state.
    pub fn set_surface_kind(&mut self, kind: SurfaceKind)
        ensures
            *final(self) == (SurfaceState {
                kind: Some(kind),
                has_pool: false,
                pool_size: 0,
                current_output: None,
                configured: false,
                frame_callback_pending: false,
                ..*old(self)
            }),
    {
        self.kind = Some(kind);
        self.has_pool = false;
        self.pool_size = 0;
        self.current_output = None;
        self.configured = false;
        self.frame_callback_pending = false;
    }

    /// Whether the surface is an xdg-shell window.
    pub fn is_xdg_window(&self) -> (b: bool)
        ensures
            b == (self.kind == Some(SurfaceKind::Xdg)),
    {
        matches!(self.kind, Some(SurfaceKind::Xdg))
    }

    /// Records the output the surface entered last.
    pub fn set_current_output(&mut self, output: u32)
        ensures
            *final(self) == (SurfaceState { current_output: Some(output), ..*old(self) }),
    {
        self.current_output = Some(output);
    }

    /// Forgets the current output if it is the given one.
    pub fn clear_output(&mut self, output: u32)
        ensures
            *final(self) == (SurfaceState {
                current_output: if old(self).current_output == Some(output) {
                    None
                } else {
                    old(self).current_output
                },
                ..*old(self)
            }),
    {
        let next = match self.current_output {
            Some(o) => if o == output {
                None
            } else {
                Some(o)
            },
            None => None,
        };
        self.current_output = next;
    }

    /// Takes a new size; returns whether it changed, in which case the pool is dropped.
    pub fn update_dimensions(&mut self, width: u32, height: u32) -> (changed: bool)
        ensures
            changed == (old(self).width != width || old(self).height != height),
            *final(self) == (SurfaceState {
                width,
                height,
                has_pool: if changed { false } else { old(self).has_pool },
                pool_size: if changed { 0 } else { old(self).pool_size },
                ..*old(self)
            }),
    {
        let changed = self.width != width || self.height != height;
        let has_pool = if changed { false } else { self.has_pool };
        let pool_size = if changed { 0 } else { self.pool_size };
        self.width = width;
        self.height = height;
        self.has_pool = has_pool;
        self.pool_size = pool_size;
        changed
    }

    /// Takes a new buffer scale, raised to at least 1. When it changes the pool is dropped
    /// and the returned target says where the scale must be applied; otherwise nothing.
    pub fn set_scale(&mut self, scale: i32) -> (target: Option<ScaleTarget>)
        ensures
            ({
                let s = if scale < 1 { 1i32 } else { scale };
                if old(self).scale != s {
                    &&& *final(self) == (SurfaceState { scale: s, has_pool: false, pool_size: 0, ..*old(self) })
                    &&& target == Some(
                        match old(self).kind {
                            Some(SurfaceKind::Layer) => ScaleTarget::LayerSurface,
                            Some(SurfaceKind::Xdg) => ScaleTarget::WlSurface,
                            None => ScaleTarget::Nothing,
                        },
                    )
                } else {
                    *final(self) == *old(self) && target is None
                }
            }),
    {
        let s = if scale < 1 { 1i32 } else { scale };
        if self.scale == s {
            return None;
        }
        *self = SurfaceState { scale: s, has_pool: false, pool_size: 0, ..*self };
        Some(
            match self.kind {
                Some(SurfaceKind::Layer) => ScaleTarget::LayerSurface,
                Some(SurfaceKind::Xdg) => ScaleTarget::WlSurface,
                None => ScaleTarget::Nothing,
            },
        )
    }

    /// Physical size: the logical size times the scale, saturating.
    pub fn physical_dimensions(&self) -> (dims: (u32, u32))
        requires
            self.scale >= 1,
        ensures
            dims == (saturating_mul_u32(self.width, self.scale as u32), saturating_mul_u32(
                self.height,
                self.scale as u32,
            )),
    {
        let s = self.scale as u32;
        (saturating_mul(self.width, s), saturating_mul(self.height, s))
    }

    /// The buffer scale.
    pub fn scale(&self) -> (s: i32)
        ensures
            s == self.scale,
    {
        self.scale
    }

    /// The logical width in pixels.
    pub fn width(&self) -> (w: u32)
        ensures
            w == self.width,
    {
        self.width
    }

    /// The logical height in pixels.
    pub fn height(&self) -> (h: u32)
        ensures
            h == self.height,
    {
        self.height
    }

    /// Whether the compositor has configured the surface.
    pub fn is_configured(&self) -> (b: bool)
        ensures
            b == self.configured,
    {
        self.configured
    }

    /// Whether a frame callback is outstanding.
    pub fn frame_callback_pending(&self) -> (b: bool)
        ensures
            b == self.frame_callback_pending,
    {
        self.frame_callback_pending
    }

    /// The generation of the current buffer pool.
    pub fn pool_generation(&self) -> (g: u64)
        ensures
            g == self.pool_generation,
    {
        self.pool_generation
    }

    /// The output the surface is on, if known.
    pub fn current_output(&self) -> (o: Option<u32>)
        ensures
            o == self.current_output,
    {
        self.current_output
    }

    pub fn set_configured(&mut self, configured: bool)
        ensures
            *final(self) == (SurfaceState { configured, ..*old(self) }),
    {
        self.configured = configured;
    }

    pub fn set_frame_callback_pending(&mut self, pending: bool)
        ensures
            *final(self) == (SurfaceState { frame_callback_pending: pending, ..*old(self) }),
    {
        self.frame_callback_pending = pending;
    }

    /// Records the pool size after a buffer was created; returns whether the pool grew.
    pub fn update_pool_size(&mut self, new_size: usize) -> (grew: bool)
        ensures
            grew == (new_size > old(self).pool_size),
            *final(self) == (SurfaceState { pool_size: new_size, ..*old(self) }),
    {
        let grew = new_size > self.pool_size;
        self.pool_size = new_size;
        grew
    }

    /// The size in bytes of a new pool for `buffer_count` buffers of the physical size,
    /// four bytes per pixel, or `None` when a pool already exists.
    pub fn pool_request(&self, buffer_count: usize) -> (size: Option<usize>)
        requires
            self.scale >= 1,
            saturating_mul_u32(self.width, self.scale as u32) * saturating_mul_u32(self.height, self.scale as u32) * 4
                <= u32::MAX,
            saturating_mul_u32(self.width, self.scale as u32) * saturating_mul_u32(self.height, self.scale as u32) * 4
                * buffer_count <= usize::MAX,
        ensures
            self.has_pool ==> size is None,
            !self.has_pool ==> size == Some(
                (saturating_mul_u32(self.width, self.scale as u32) * saturating_mul_u32(self.height, self.scale as u32)
                    * 4 * buffer_count) as usize,
            ),
    {
        if self.has_pool {
            return None;
        }
        let (w, h) = self.physical_dimensions();
        assert(w * h * 4 <= u32::MAX);
        let per_buffer = (w * h * 4) as usize;
        assert(per_buffer * buffer_count <= usize::MAX);
        Some(per_buffer * buffer_count)
    }

    /// Records a newly created pool of `len` bytes; returns the new generation.
    pub fn pool_created(&mut self, len: usize) -> (generation: u64)
        requires
            old(self).pool_generation < u64::MAX,
        ensures
            generation == old(self).pool_generation + 1,
            *final(self) == (SurfaceState {
                has_pool: true,
                pool_size: len,
                pool_generation: generation,
                ..*old(self)
            }),
    {
        self.has_pool = true;
        self.pool_size = len;
        self.pool_generation = self.pool_generation + 1;
        self.pool_generation
    }
}

} // verus!
