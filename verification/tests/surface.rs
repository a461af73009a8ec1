use wayscriber::configure::{
    resize_drops_image,
    layer_configure, xdg_configure, xdg_configure_size, xdg_fallback_dimensions, OutputInfo,
    OutputMode,
};
use wayscriber::surface::{ScaleTarget, SurfaceKind, SurfaceState};

#[test]
fn new_surface_is_unconfigured_at_scale_one() {
    let s = SurfaceState::new();
    assert_eq!(s.scale, 1);
    assert!(!s.configured);
    assert!(!s.is_xdg_window());
    assert_eq!(s.physical_dimensions(), (0, 0));
}

#[test]
fn resizing_drops_the_pool() {
    let mut s = SurfaceState::new();
    s.set_surface_kind(SurfaceKind::Layer);
    assert!(s.update_dimensions(800, 600));
    assert_eq!(s.pool_request(2), Some(800 * 600 * 4 * 2));
    assert_eq!(s.pool_created(3_840_000), 1);
    assert_eq!(s.pool_request(2), None);
    assert!(!s.update_dimensions(800, 600));
    assert!(s.has_pool);
    assert!(s.update_dimensions(1024, 768));
    assert!(!s.has_pool);
    assert_eq!(s.pool_size, 0);
    assert_eq!(s.pool_created(100), 2);
}

#[test]
fn scale_changes_are_clamped_and_applied_to_the_role() {
    let mut s = SurfaceState::new();
    assert_eq!(s.set_scale(0), None);
    assert_eq!(s.set_scale(-3), None);
    assert_eq!(s.set_scale(2), Some(ScaleTarget::Nothing));
    s.set_surface_kind(SurfaceKind::Xdg);
    assert_eq!(s.set_scale(3), Some(ScaleTarget::WlSurface));
    s.set_surface_kind(SurfaceKind::Layer);
    assert_eq!(s.set_scale(1), Some(ScaleTarget::LayerSurface));
    assert_eq!(s.set_scale(1), None);
}

#[test]
fn physical_dimensions_saturate() {
    let mut s = SurfaceState::new();
    s.update_dimensions(u32::MAX, 10);
    s.set_scale(2);
    assert_eq!(s.physical_dimensions(), (u32::MAX, 20));
}

#[test]
fn pool_growth_is_reported() {
    let mut s = SurfaceState::new();
    assert!(s.update_pool_size(10));
    assert!(!s.update_pool_size(10));
    assert!(!s.update_pool_size(5));
    assert_eq!(s.pool_size, 5);
}

#[test]
fn outputs_are_forgotten_only_when_they_match() {
    let mut s = SurfaceState::new();
    s.set_current_output(4);
    s.clear_output(5);
    assert_eq!(s.current_output, Some(4));
    s.clear_output(4);
    assert_eq!(s.current_output, None);
}

#[test]
fn new_shell_surface_resets_its_state() {
    let mut s = SurfaceState::new();
    s.set_current_output(1);
    s.set_configured(true);
    s.set_frame_callback_pending(true);
    s.pool_created(10);
    s.set_surface_kind(SurfaceKind::Xdg);
    assert!(s.is_xdg_window());
    assert!(!s.configured && !s.frame_callback_pending && !s.has_pool);
    assert_eq!(s.current_output, None);
    assert_eq!(s.pool_generation, 1);
}

fn mode(width: i32, height: i32, current: bool, preferred: bool) -> OutputMode {
    OutputMode { width, height, current, preferred }
}

#[test]
fn xdg_fallback_prefers_logical_size_then_modes_then_surface() {
    let logical = Some(OutputInfo { logical_size: Some((1280, 0)), modes: vec![mode(1, 1, true, true)] });
    assert_eq!(xdg_fallback_dimensions(&logical, 5, 5), (1280, 1));
    let modes = Some(OutputInfo {
        logical_size: None,
        modes: vec![mode(640, 480, false, false), mode(1920, 1080, false, true), mode(800, 600, true, false)],
    });
    assert_eq!(xdg_fallback_dimensions(&modes, 5, 5), (1920, 1080));
    let first = Some(OutputInfo { logical_size: None, modes: vec![mode(640, -2, false, false)] });
    assert_eq!(xdg_fallback_dimensions(&first, 5, 5), (640, 1));
    let empty = Some(OutputInfo { logical_size: None, modes: vec![] });
    assert_eq!(xdg_fallback_dimensions(&empty, 0, 7), (1, 7));
    assert_eq!(xdg_fallback_dimensions(&None, 300, 200), (300, 200));
}

#[test]
fn xdg_configure_uses_given_components_and_adopts_an_output() {
    assert_eq!(xdg_configure_size(Some(1000), None, (10, 20)), (1000, 20));
    let mut s = SurfaceState::new();
    let out = xdg_configure(&mut s, 1000, 20, Some(9));
    assert!(out.size_changed && out.adopted_output);
    assert!(s.configured);
    assert_eq!(s.current_output, Some(9));
    let out = xdg_configure(&mut s, 1000, 20, Some(3));
    assert!(!out.size_changed && !out.adopted_output);
    assert_eq!(s.current_output, Some(9));
}

#[test]
fn layer_configure_ignores_empty_sizes() {
    let mut s = SurfaceState::new();
    s.update_dimensions(640, 480);
    assert!(!layer_configure(&mut s, 0, 100));
    assert_eq!((s.width, s.height), (640, 480));
    assert!(s.configured);
    assert!(layer_configure(&mut s, 800, 600));
    assert_eq!((s.width, s.height), (800, 600));
}

#[test]
fn resized_surfaces_drop_mismatched_images() {
    assert!(resize_drops_image(Some((100, 50)), 200, 50));
    assert!(!resize_drops_image(Some((100, 50)), 100, 50));
    assert!(!resize_drops_image(None, 1, 1));
}

#[test]
fn getters_report_the_recorded_state() {
    let mut s = SurfaceState::new();
    s.set_surface_kind(SurfaceKind::Layer);
    s.update_dimensions(640, 480);
    s.set_configured(true);
    s.set_frame_callback_pending(true);
    s.set_current_output(7);
    assert_eq!((s.width(), s.height(), s.scale()), (640, 480, 1));
    assert!(s.is_configured());
    assert!(s.frame_callback_pending());
    assert_eq!(s.current_output(), Some(7));
    assert_eq!(s.pool_generation(), 0);
}
