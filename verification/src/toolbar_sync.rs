//! Toolbar visibility sync: the decisions taken on each pass of the event loop about the
//! toolbar surfaces (show or hide them, fall back to inline toolbars when the compositor
//! never configures the layer surfaces, recreate them, and so on). The caller performs
//! what the plan asks and feeds the new state into the next pass.
use vstd::prelude::*;

verus! {

/// What one sync pass looks at.
#[derive(Debug, Clone, Copy, PartialEq, Eq, Structural)]
pub struct ToolbarSyncInput {
    /// Whether the input state wants the top toolbar shown.
    pub want_top: bool,
    /// Whether the input state wants the side toolbar shown.
    pub want_side: bool,
    /// Whether the toolbar surfaces currently show the top toolbar.
    pub top_visible: bool,
    /// Whether the toolbar surfaces currently show the side toolbar.
    pub side_visible: bool,
    /// Whether inline toolbars are in use.
    pub inline_active: bool,
    /// Whether a toolbar drag preview is being shown.
    pub drag_preview: bool,
    /// Whether the compositor offers the layer-shell protocol.
    pub layer_shell_available: bool,
    /// Whether the overlay is presented as a fullscreen overlay (not a window).
    pub overlay_presentation: bool,
    /// Whether the missing layer shell was already reported.
    pub layer_shell_missing_logged: bool,
    pub top_created: bool,
    pub side_created: bool,
    pub top_configured: bool,
    pub side_configured: bool,
    pub needs_recreate: bool,
    /// Whether a toolbar move-drag is in progress.
    pub move_dragging: bool,
    /// Consecutive passes in which a visible layer toolbar was not configured.
    pub configure_miss_count: u32,
}

/// What one sync pass asks of the caller.
#[derive(Debug, Clone, Copy, PartialEq, Eq, Structural)]
pub struct ToolbarSyncPlan {
    /// New visibility of the top toolbar, when it changes.
    pub set_top_visible: Option<bool>,
    /// New visibility of the side toolbar, when it changes.
    pub set_side_visible: Option<bool>,
    /// A redraw is due.
    pub redraw: bool,
    /// No toolbar is shown: forget toolbar hover, focus and inline hit areas.
    pub clear_toolbar_interaction: bool,
    /// Forget cached toolbar margins.
    pub reset_margin_cache: bool,
    /// Report, once, that the layer shell is missing.
    pub log_layer_shell_missing: bool,
    /// Destroy the toolbar layer surfaces.
    pub destroy_surfaces: bool,
    /// The new value of the recreate flag.
    pub needs_recreate: bool,
    /// The new miss counter.
    pub configure_miss_count: u32,
    /// Switch to inline toolbars for good and run the sync again.
    pub fall_back_to_inline: bool,
    /// Re-apply the toolbar offsets.
    pub apply_offsets: bool,
    /// Make sure the layer surfaces exist.
    pub ensure_created: bool,
    /// Bring the keyboard interactivity up to date (done by the pass that does not fall back).
    pub refresh_keyboard: bool,
}

/// Whether the pass manages layer-shell toolbars.
pub open spec fn layer_path(inp: ToolbarSyncInput) -> bool {
    (inp.want_top || inp.want_side) && inp.layer_shell_available && !inp.inline_active && !inp.drag_preview
}

/// The miss counter after this pass's configure check.
pub open spec fn counted_misses(inp: ToolbarSyncInput) -> int {
    if (inp.want_top && !inp.top_configured) || (inp.want_side && !inp.side_configured) {
        if inp.configure_miss_count == u32::MAX {
            u32::MAX as int
        } else {
            inp.configure_miss_count + 1
        }
    } else {
        0
    }
}

/// The plan of one pass, with `threshold` the number of unconfigured passes tolerated
/// before falling back to inline toolbars.
pub open spec fn spec_toolbar_sync(inp: ToolbarSyncInput, threshold: u32) -> ToolbarSyncPlan {
    let any = inp.want_top || inp.want_side;
    let inline_teardown = any && inp.inline_active && (inp.top_created || inp.side_created);
    let layer = layer_path(inp);
    let fallback = layer && counted_misses(inp) > threshold;
    let recreate_now = layer && !fallback && inp.needs_recreate;
    ToolbarSyncPlan {
        set_top_visible: if inp.want_top != inp.top_visible { Some(inp.want_top) } else { None },
        set_side_visible: if inp.want_side != inp.side_visible { Some(inp.want_side) } else { None },
        redraw: inp.want_top != inp.top_visible || inp.want_side != inp.side_visible,
        clear_toolbar_interaction: !any,
        reset_margin_cache: !any || inline_teardown || fallback || recreate_now,
        log_layer_shell_missing: any && !inp.layer_shell_available && inp.overlay_presentation
            && !inp.layer_shell_missing_logged,
        destroy_surfaces: inline_teardown || fallback || recreate_now,
        needs_recreate: if inline_teardown || fallback {
            true
        } else if recreate_now {
            false
        } else {
            inp.needs_recreate
        },
        configure_miss_count: if !any || (any && inp.inline_active) || fallback {
            0
        } else if layer {
            counted_misses(inp) as u32
        } else {
            inp.configure_miss_count
        },
        fall_back_to_inline: fallback,
        apply_offsets: layer && !fallback && !inp.move_dragging,
        ensure_created: layer && !fallback,
        refresh_keyboard: !fallback,
    }
}

/// Plans one toolbar sync pass (see `spec_toolbar_sync`).
pub fn sync_toolbar_visibility(inp: ToolbarSyncInput, threshold: u32) -> (plan: ToolbarSyncPlan)
    ensures
        plan == spec_toolbar_sync(inp, threshold),
{
    let set_top_visible = if inp.want_top != inp.top_visible { Some(inp.want_top) } else { None };
    let set_side_visible = if inp.want_side != inp.side_visible { Some(inp.want_side) } else { None };
    let redraw = set_top_visible.is_some() || set_side_visible.is_some();
    let any_visible = inp.want_top || inp.want_side;

    let mut reset_margin_cache = false;
    let mut destroy_surfaces = false;
    let mut needs_recreate = inp.needs_recreate;
    let mut miss = inp.configure_miss_count;
    let mut apply_offsets = false;
    let mut ensure_created = false;

    if !any_visible {
        miss = 0;
        reset_margin_cache = true;
    }
    let log_layer_shell_missing = any_visible && !inp.layer_shell_available && inp.overlay_presentation
        && !inp.layer_shell_missing_logged;

    if any_visible && inp.inline_active {
        if inp.top_created || inp.side_created {
            destroy_surfaces = true;
            needs_recreate = true;
            reset_margin_cache = true;
        }
        miss = 0;
    }

    if any_visible && inp.layer_shell_available && !inp.inline_active && !inp.drag_preview {
        let expected_top = inp.want_top;
        let expected_side = inp.want_side;
        if (expected_top && !inp.top_configured) || (expected_side && !inp.side_configured) {
            miss = miss.saturating_add(1);
        } else {
            miss = 0;
        }
        if miss > threshold {
            return ToolbarSyncPlan {
                set_top_visible,
                set_side_visible,
                redraw,
                clear_toolbar_interaction: false,
                reset_margin_cache: true,
                log_layer_shell_missing,
                destroy_surfaces: true,
                needs_recreate: true,
                configure_miss_count: 0,
                fall_back_to_inline: true,
                apply_offsets: false,
                ensure_created: false,
                refresh_keyboard: false,
            };
        }
        if needs_recreate {
            destroy_surfaces = true;
            needs_recreate = false;
            reset_margin_cache = true;
        }
        apply_offsets = !inp.move_dragging;
        ensure_created = true;
    }

    ToolbarSyncPlan {
        set_top_visible,
        set_side_visible,
        redraw,
        clear_toolbar_interaction: !any_visible,
        reset_margin_cache,
        log_layer_shell_missing,
        destroy_surfaces,
        needs_recreate,
        configure_miss_count: miss,
        fall_back_to_inline: false,
        apply_offsets,
        ensure_created,
        refresh_keyboard: true,
    }
}

/// The miss counter never grows past the threshold: a pass that would take it past the
/// threshold falls back to inline toolbars and resets it.
pub proof fn lemma_miss_count_bounded(inp: ToolbarSyncInput, threshold: u32)
    requires
        inp.configure_miss_count <= threshold,
    ensures
        spec_toolbar_sync(inp, threshold).configure_miss_count <= threshold,
{
}

/// A fallback pass leaves a state from which the next pass manages no layer surfaces:
/// with inline toolbars active, the next pass neither falls back again nor creates them.
pub proof fn lemma_fallback_settles(inp: ToolbarSyncInput, threshold: u32)
    requires
        spec_toolbar_sync(inp, threshold).fall_back_to_inline,
    ensures
        ({
            let plan = spec_toolbar_sync(inp, threshold);
            let next = ToolbarSyncInput {
                inline_active: true,
                needs_recreate: plan.needs_recreate,
                configure_miss_count: plan.configure_miss_count,
                top_visible: inp.want_top,
                side_visible: inp.want_side,
                top_created: false,
                side_created: false,
                ..inp
            };
            let again = spec_toolbar_sync(next, threshold);
            &&& !again.fall_back_to_inline
            &&& !again.ensure_created
            &&& again.configure_miss_count == 0
            &&& again.refresh_keyboard
        }),
{
}

} // verus!
