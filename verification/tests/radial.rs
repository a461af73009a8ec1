use wayscriber::radial::{
    popups_closed_by_radial_menu, PopupsToClose,
    radial_color_for_index, sub_ring_child_count, sub_ring_child_label, RadialColor,
    RadialCommand, RadialMenuState, RadialSegmentId, RadialSelection, RadialTool,
};

#[test]
fn color_ring_maps_indices_and_defaults_to_red() {
    assert_eq!(radial_color_for_index(0), RadialColor::Red);
    assert_eq!(radial_color_for_index(1), RadialColor::Green);
    assert_eq!(radial_color_for_index(2), RadialColor::Blue);
    assert_eq!(radial_color_for_index(3), RadialColor::Yellow);
    assert_eq!(radial_color_for_index(4), RadialColor::Orange);
    assert_eq!(radial_color_for_index(5), RadialColor::Pink);
    assert_eq!(radial_color_for_index(6), RadialColor::White);
    assert_eq!(radial_color_for_index(7), RadialColor::Black);
    assert_eq!(radial_color_for_index(8), RadialColor::Red);
    assert_eq!(radial_color_for_index(255), RadialColor::Red);
}

#[test]
fn only_shapes_text_and_actions_have_sub_rings() {
    assert_eq!(sub_ring_child_count(4), 2);
    assert_eq!(sub_ring_child_count(5), 3);
    assert_eq!(sub_ring_child_count(8), 3);
    for idx in [0u8, 1, 2, 3, 6, 7, 9, 200] {
        assert_eq!(sub_ring_child_count(idx), 0);
        assert_eq!(sub_ring_child_label(idx, 0), "");
    }
}

#[test]
fn sub_ring_labels_follow_ring_order() {
    assert_eq!(sub_ring_child_label(4, 0), "Rect");
    assert_eq!(sub_ring_child_label(4, 1), "Ellipse");
    assert_eq!(sub_ring_child_label(4, 2), "");
    assert_eq!(sub_ring_child_label(5, 1), "Note");
    assert_eq!(sub_ring_child_label(8, 2), "Clear");
    assert_eq!(sub_ring_child_label(8, 3), "");
}

#[test]
fn hover_expands_parents_and_collapses_elsewhere() {
    let mut menu = RadialMenuState::Hidden;
    assert!(!menu.update_radial_menu_hover(Some(RadialSegmentId::Tool(4)), false));
    menu.open_radial_menu(100, 100);
    assert!(menu.is_radial_menu_open());

    assert!(menu.update_radial_menu_hover(Some(RadialSegmentId::Tool(4)), false));
    assert!(matches!(menu, RadialMenuState::Open { expanded_sub_ring: Some(4), .. }));
    // Hovering a child keeps the ring.
    menu.update_radial_menu_hover(Some(RadialSegmentId::SubTool(4, 1)), true);
    assert!(matches!(menu, RadialMenuState::Open { expanded_sub_ring: Some(4), .. }));
    // A gap inside the band keeps it, outside the band collapses it.
    menu.update_radial_menu_hover(None, true);
    assert!(matches!(menu, RadialMenuState::Open { expanded_sub_ring: Some(4), .. }));
    assert!(menu.update_radial_menu_hover(None, false));
    assert!(matches!(menu, RadialMenuState::Open { expanded_sub_ring: None, hover: None, .. }));
    // Same hover again: nothing changes.
    assert!(!menu.update_radial_menu_hover(None, false));
    menu.update_radial_menu_hover(Some(RadialSegmentId::Tool(8)), false);
    menu.update_radial_menu_hover(Some(RadialSegmentId::Color(2)), false);
    assert!(matches!(menu, RadialMenuState::Open { expanded_sub_ring: None, .. }));
}

#[test]
fn selecting_a_parent_expands_and_keeps_the_menu_open() {
    let mut menu = RadialMenuState::Hidden;
    menu.open_radial_menu(10, 20);
    menu.update_radial_menu_hover(Some(RadialSegmentId::Tool(5)), false);
    menu.update_radial_menu_hover(Some(RadialSegmentId::Tool(2)), false);
    menu.update_radial_menu_hover(Some(RadialSegmentId::Tool(8)), false);
    assert_eq!(menu.radial_menu_select_hovered(), Some(RadialSelection::ExpandSubRing(8)));
    assert!(menu.is_radial_menu_open());
}

#[test]
fn selecting_a_segment_runs_its_command_and_closes() {
    let cases = [
        (RadialSegmentId::Tool(0), RadialCommand::SetTool(RadialTool::Pen)),
        (RadialSegmentId::Tool(7), RadialCommand::SetTool(RadialTool::Select)),
        (RadialSegmentId::SubTool(4, 1), RadialCommand::SetTool(RadialTool::Ellipse)),
        (RadialSegmentId::SubTool(5, 1), RadialCommand::EnterStickyNote),
        (RadialSegmentId::SubTool(5, 2), RadialCommand::SetTool(RadialTool::StepMarker)),
        (RadialSegmentId::SubTool(8, 0), RadialCommand::Undo),
        (RadialSegmentId::SubTool(8, 2), RadialCommand::ClearCanvas),
        (RadialSegmentId::SubTool(8, 9), RadialCommand::Dismiss),
        (RadialSegmentId::Color(3), RadialCommand::ApplyColor(RadialColor::Yellow)),
        (RadialSegmentId::Center, RadialCommand::Dismiss),
    ];
    for (segment, command) in cases {
        let mut menu = RadialMenuState::Hidden;
        menu.open_radial_menu(0, 0);
        menu.update_radial_menu_hover(Some(segment), true);
        assert_eq!(menu.radial_menu_select_hovered(), Some(RadialSelection::Run(command)));
        assert_eq!(menu, RadialMenuState::Hidden);
    }
    let mut hidden = RadialMenuState::Hidden;
    assert_eq!(hidden.radial_menu_select_hovered(), None);
}

#[test]
fn toggle_opens_and_closes() {
    let mut menu = RadialMenuState::Hidden;
    menu.toggle_radial_menu(3, 4);
    assert_eq!(
        menu,
        RadialMenuState::Open { center_x: 3, center_y: 4, hover: None, expanded_sub_ring: None }
    );
    menu.toggle_radial_menu(3, 4);
    assert_eq!(menu, RadialMenuState::Hidden);
    assert!(!menu.close_radial_menu());
}

#[test]
fn opening_the_radial_menu_closes_the_open_popups() {
    assert_eq!(
        popups_closed_by_radial_menu(true, false, true, false, true),
        PopupsToClose {
            help_overlay: true,
            context_menu: false,
            color_picker: true,
            properties_panel: false,
            command_palette: true,
        }
    );
}
