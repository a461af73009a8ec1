use wayscriber::desktop::resolve_output_preferences;
use wayscriber::undo::{action_side_effects, dirty_regions_of, hit_cache_invalidations, UndoAction};

#[test]
fn simple_actions_invalidate_their_shapes() {
    assert_eq!(hit_cache_invalidations(&UndoAction::Create { shapes: vec![3, 4] }), vec![3, 4]);
    assert_eq!(hit_cache_invalidations(&UndoAction::Delete { shapes: vec![] }), Vec::<u64>::new());
    assert_eq!(hit_cache_invalidations(&UndoAction::Modify { shape_id: 9 }), vec![9]);
    assert_eq!(hit_cache_invalidations(&UndoAction::Reorder { shape_id: 2 }), vec![2]);
}

#[test]
fn compound_actions_invalidate_every_part_in_order() {
    let action = UndoAction::Compound(vec![
        UndoAction::Create { shapes: vec![0] },
        UndoAction::Compound(vec![UndoAction::Modify { shape_id: 5 }, UndoAction::Reorder { shape_id: 6 }]),
        UndoAction::Delete { shapes: vec![1, 2] },
    ]);
    assert_eq!(hit_cache_invalidations(&action), vec![0, 5, 6, 1, 2]);
    assert_eq!(hit_cache_invalidations(&UndoAction::Compound(vec![])), Vec::<u64>::new());
}

#[test]
fn applied_actions_clear_the_selection_and_mark_the_session() {
    let e = action_side_effects(true);
    assert!(e.clear_selection && e.needs_redraw && e.session_dirty && e.refresh_properties_panel);
    assert!(!action_side_effects(false).refresh_properties_panel);
    assert!(e.close_properties_panel);
    assert!(!action_side_effects(false).close_properties_panel);
}

#[test]
fn output_preferences_prefer_the_environment() {
    let p = resolve_output_preferences(Some("DP-1".to_string()), Some("HDMI-A-1".to_string()), "niri", "", "");
    assert_eq!(p.preferred_output_identity.as_deref(), Some("DP-1"));
    assert!(p.main_surface_uses_overlay_layer);
    let p = resolve_output_preferences(None, Some("HDMI-A-1".to_string()), "GNOME", "gnome", "gnome");
    assert_eq!(p.preferred_output_identity.as_deref(), Some("HDMI-A-1"));
    assert!(!p.main_surface_uses_overlay_layer);
}

#[test]
fn dirty_regions_skip_reordered_shapes_that_are_gone() {
    let present = vec![1, 2];
    assert_eq!(dirty_regions_of(&UndoAction::Reorder { shape_id: 2 }, &present), vec![2]);
    assert_eq!(dirty_regions_of(&UndoAction::Reorder { shape_id: 5 }, &present), Vec::<u64>::new());
    let compound = UndoAction::Compound(vec![
        UndoAction::Modify { shape_id: 7 },
        UndoAction::Reorder { shape_id: 8 },
        UndoAction::Create { shapes: vec![1, 9] },
    ]);
    assert_eq!(dirty_regions_of(&compound, &present), vec![7, 1, 9]);
}
