use wayscriber::toolbar_sync::{sync_toolbar_visibility, ToolbarSyncInput};

fn base() -> ToolbarSyncInput {
    ToolbarSyncInput {
        want_top: true,
        want_side: false,
        top_visible: true,
        side_visible: false,
        inline_active: false,
        drag_preview: false,
        layer_shell_available: true,
        overlay_presentation: true,
        layer_shell_missing_logged: false,
        top_created: true,
        side_created: false,
        top_configured: true,
        side_configured: false,
        needs_recreate: false,
        move_dragging: false,
        configure_miss_count: 0,
    }
}

#[test]
fn configured_layer_toolbar_is_kept_and_positioned() {
    let plan = sync_toolbar_visibility(base(), 5);
    assert_eq!(plan.set_top_visible, None);
    assert!(!plan.redraw);
    assert!(plan.ensure_created);
    assert!(plan.apply_offsets);
    assert!(!plan.destroy_surfaces);
    assert_eq!(plan.configure_miss_count, 0);
    assert!(plan.refresh_keyboard);
}

#[test]
fn hiding_every_toolbar_clears_interaction_state() {
    let mut inp = base();
    inp.want_top = false;
    inp.configure_miss_count = 3;
    let plan = sync_toolbar_visibility(inp, 5);
    assert_eq!(plan.set_top_visible, Some(false));
    assert!(plan.redraw);
    assert!(plan.clear_toolbar_interaction);
    assert!(plan.reset_margin_cache);
    assert_eq!(plan.configure_miss_count, 0);
    assert!(!plan.ensure_created);
}

#[test]
fn unconfigured_toolbar_counts_misses_then_falls_back_to_inline() {
    let mut inp = base();
    inp.top_configured = false;
    inp.configure_miss_count = 4;
    let plan = sync_toolbar_visibility(inp, 5);
    assert_eq!(plan.configure_miss_count, 5);
    assert!(!plan.fall_back_to_inline);
    assert!(plan.ensure_created);

    inp.configure_miss_count = 5;
    let plan = sync_toolbar_visibility(inp, 5);
    assert!(plan.fall_back_to_inline);
    assert!(plan.destroy_surfaces);
    assert!(plan.needs_recreate);
    assert_eq!(plan.configure_miss_count, 0);
    assert!(!plan.refresh_keyboard);

    // The next pass, inline, settles.
    inp.inline_active = true;
    inp.top_created = false;
    inp.needs_recreate = plan.needs_recreate;
    inp.configure_miss_count = plan.configure_miss_count;
    let again = sync_toolbar_visibility(inp, 5);
    assert!(!again.fall_back_to_inline);
    assert!(!again.ensure_created);
    assert!(again.refresh_keyboard);
}

#[test]
fn inline_mode_tears_down_existing_layer_surfaces() {
    let mut inp = base();
    inp.inline_active = true;
    inp.configure_miss_count = 2;
    let plan = sync_toolbar_visibility(inp, 5);
    assert!(plan.destroy_surfaces);
    assert!(plan.needs_recreate);
    assert!(plan.reset_margin_cache);
    assert_eq!(plan.configure_miss_count, 0);
    assert!(!plan.ensure_created);
}

#[test]
fn pending_recreate_happens_on_the_layer_path() {
    let mut inp = base();
    inp.needs_recreate = true;
    inp.move_dragging = true;
    let plan = sync_toolbar_visibility(inp, 5);
    assert!(plan.destroy_surfaces);
    assert!(!plan.needs_recreate);
    assert!(!plan.apply_offsets);
    assert!(plan.ensure_created);
}

#[test]
fn missing_layer_shell_is_reported_once_for_overlays() {
    let mut inp = base();
    inp.layer_shell_available = false;
    assert!(sync_toolbar_visibility(inp, 5).log_layer_shell_missing);
    inp.layer_shell_missing_logged = true;
    assert!(!sync_toolbar_visibility(inp, 5).log_layer_shell_missing);
    inp.layer_shell_missing_logged = false;
    inp.overlay_presentation = false;
    assert!(!sync_toolbar_visibility(inp, 5).log_layer_shell_missing);
}

#[test]
fn saturated_miss_counter_with_maximal_threshold_never_falls_back() {
    let mut inp = base();
    inp.top_configured = false;
    inp.configure_miss_count = u32::MAX;
    let plan = sync_toolbar_visibility(inp, u32::MAX);
    assert!(!plan.fall_back_to_inline);
    assert_eq!(plan.configure_miss_count, u32::MAX);
}
