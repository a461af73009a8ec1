use wayscriber::config_draft::{named_color_for, NamedColorOption, ArrowDraft, BoardsDraft, CaptureDraft, ClickHighlightDraft, ColorInput, ColorQuadInput, ConfigDraft, DragToolField, DrawingDraft, EraserModeOption, FontStyleOption, FontWeightOption, HelpDraft, HistoryDraft, OverrideOption, PerformanceDraft, PresenterDraft, PresenterToolBehaviorOption, QuadField, SessionCompressionOption, SessionDraft, SessionStorageModeOption, StatusDraft, StatusPositionOption, TextField, ToggleField, ToolOption, ToolbarDraft, ToolbarLayoutModeOption, ToolbarModeOverrideDraft, ToolbarModeOverridesDraft, ToolbarOverrideField, ToolbarSectionsDraft, TripletField, UiDraft};

fn quad() -> ColorQuadInput {
    ColorQuadInput { components: vec!["0".to_string(), "0".to_string(), "0".to_string(), "1".to_string()] }
}

fn overrides() -> ToolbarModeOverrideDraft {
    ToolbarModeOverrideDraft {
        show_presets: OverrideOption::Default,
        show_actions_section: OverrideOption::Default,
        show_actions_advanced: OverrideOption::Default,
        show_zoom_actions: OverrideOption::Default,
        show_pages_section: OverrideOption::Default,
        show_boards_section: OverrideOption::Default,
        show_step_section: OverrideOption::Default,
        show_text_controls: OverrideOption::Default,
        show_settings_section: OverrideOption::Default,
    }
}

fn sample_draft() -> ConfigDraft {
    ConfigDraft {
        drawing: DrawingDraft {
            drawing_color: ColorInput {
                name: "red".to_string(),
                rgb: vec!["255".to_string(), "0".to_string(), "0".to_string()],
                selected_named: NamedColorOption::Red,
            },
            drawing_default_thickness: "drawing_default_thickness".to_string(),
            drawing_default_eraser_size: "drawing_default_eraser_size".to_string(),
            drawing_default_eraser_mode: EraserModeOption::Brush,
            drawing_default_font_size: "drawing_default_font_size".to_string(),
            drawing_marker_opacity: "drawing_marker_opacity".to_string(),
            drawing_hit_test_tolerance: "drawing_hit_test_tolerance".to_string(),
            drawing_hit_test_linear_threshold: "drawing_hit_test_linear_threshold".to_string(),
            drawing_undo_stack_limit: "drawing_undo_stack_limit".to_string(),
            drawing_font_family: "drawing_font_family".to_string(),
            drawing_font_weight: "drawing_font_weight".to_string(),
            drawing_font_style: "drawing_font_style".to_string(),
            drawing_text_background_enabled: false,
            drawing_default_fill_enabled: false,
            drawing_drag_tool: ToolOption::Select,
            drawing_shift_drag_tool: ToolOption::Select,
            drawing_ctrl_drag_tool: ToolOption::Select,
            drawing_ctrl_shift_drag_tool: ToolOption::Select,
            drawing_tab_drag_tool: ToolOption::Select,
            drawing_font_style_option: FontStyleOption::Normal,
            drawing_font_weight_option: FontWeightOption::Normal,
        },
        arrow: ArrowDraft {
            arrow_length: "arrow_length".to_string(),
            arrow_angle: "arrow_angle".to_string(),
            arrow_head_at_end: false,
        },
        history: HistoryDraft {
            history_undo_all_delay_ms: "history_undo_all_delay_ms".to_string(),
            history_redo_all_delay_ms: "history_redo_all_delay_ms".to_string(),
            history_custom_section_enabled: false,
            history_custom_undo_delay_ms: "history_custom_undo_delay_ms".to_string(),
            history_custom_redo_delay_ms: "history_custom_redo_delay_ms".to_string(),
            history_custom_undo_steps: "history_custom_undo_steps".to_string(),
            history_custom_redo_steps: "history_custom_redo_steps".to_string(),
        },
        performance: PerformanceDraft {
            performance_buffer_count: 3,
            performance_enable_vsync: false,
            performance_max_fps_no_vsync: "performance_max_fps_no_vsync".to_string(),
            performance_ui_animation_fps: "performance_ui_animation_fps".to_string(),
        },
        ui: UiDraft {
            ui_show_status_bar: false,
            ui_show_status_board_badge: false,
            ui_show_status_page_badge: false,
            ui_show_page_badge_with_status_bar: false,
            ui_show_frozen_badge: false,
            ui_show_capabilities_warning: false,
            ui_context_menu_enabled: false,
            ui_preferred_output: "ui_preferred_output".to_string(),
            ui_xdg_keep_on_focus_loss: false,
            ui_command_palette_toast_duration_ms: "ui_command_palette_toast_duration_ms".to_string(),
        },
        toolbar: ToolbarDraft {
            ui_toolbar_top_pinned: false,
            ui_toolbar_side_pinned: false,
            ui_toolbar_use_icons: false,
            ui_toolbar_show_more_colors: false,
            ui_toolbar_show_preset_toasts: false,
            ui_toolbar_layout_mode: ToolbarLayoutModeOption::Simple,
            ui_toolbar_show_delay_sliders: false,
            ui_toolbar_show_marker_opacity_section: false,
            ui_toolbar_show_tool_preview: false,
            ui_toolbar_force_inline: false,
            ui_toolbar_top_offset: "ui_toolbar_top_offset".to_string(),
            ui_toolbar_top_offset_y: "ui_toolbar_top_offset_y".to_string(),
            ui_toolbar_side_offset: "ui_toolbar_side_offset".to_string(),
            ui_toolbar_side_offset_x: "ui_toolbar_side_offset_x".to_string(),
        },
        toolbar_sections: ToolbarSectionsDraft {
            ui_toolbar_show_presets: false,
            ui_toolbar_show_actions_section: false,
            ui_toolbar_show_actions_advanced: false,
            ui_toolbar_show_zoom_actions: false,
            ui_toolbar_show_pages_section: false,
            ui_toolbar_show_boards_section: false,
            ui_toolbar_show_step_section: false,
            ui_toolbar_show_text_controls: false,
            ui_toolbar_show_settings_section: false,
        },
        ui_toolbar_mode_overrides: ToolbarModeOverridesDraft { simple: overrides(), regular: overrides(), advanced: overrides() },
        status: StatusDraft {
            ui_status_position: StatusPositionOption::TopLeft,
            status_font_size: "status_font_size".to_string(),
            status_padding: "status_padding".to_string(),
            status_bar_bg_color: quad(),
            status_bar_text_color: quad(),
            status_dot_radius: "status_dot_radius".to_string(),
        },
        click_highlight: ClickHighlightDraft {
            click_highlight_enabled: false,
            click_highlight_show_on_highlight_tool: false,
            click_highlight_use_pen_color: false,
            click_highlight_radius: "click_highlight_radius".to_string(),
            click_highlight_outline_thickness: "click_highlight_outline_thickness".to_string(),
            click_highlight_duration_ms: "click_highlight_duration_ms".to_string(),
            click_highlight_fill_color: quad(),
            click_highlight_outline_color: quad(),
        },
        presenter: PresenterDraft {
            presenter_hide_status_bar: false,
            presenter_hide_toolbars: false,
            presenter_hide_tool_preview: false,
            presenter_close_help_overlay: false,
            presenter_enable_click_highlight: false,
            presenter_tool_behavior: PresenterToolBehaviorOption::Keep,
            presenter_show_toast: false,
        },
        help: HelpDraft {
            help_font_family: "help_font_family".to_string(),
            help_font_size: "help_font_size".to_string(),
            help_line_height: "help_line_height".to_string(),
            help_padding: "help_padding".to_string(),
            help_bg_color: quad(),
            help_border_color: quad(),
            help_border_width: "help_border_width".to_string(),
            help_text_color: quad(),
            help_context_filter: false,
        },
        boards: BoardsDraft {
            auto_create: false,
            show_board_badge: false,
            persist_customizations: false,
            max_count: "max_count".to_string(),
        },
        capture: CaptureDraft {
            capture_enabled: false,
            capture_save_directory: "capture_save_directory".to_string(),
            capture_filename_template: "capture_filename_template".to_string(),
            capture_format: "capture_format".to_string(),
            capture_copy_to_clipboard: false,
            capture_exit_after: false,
        },
        session: SessionDraft {
            session_persist_transparent: false,
            session_persist_whiteboard: false,
            session_persist_blackboard: false,
            session_persist_history: false,
            session_restore_tool_state: false,
            session_per_output: false,
            session_storage_mode: SessionStorageModeOption::Auto,
            session_custom_directory: "session_custom_directory".to_string(),
            session_max_shapes_per_frame: "session_max_shapes_per_frame".to_string(),
            session_max_file_size_mb: "session_max_file_size_mb".to_string(),
            session_compression: SessionCompressionOption::Auto,
            session_auto_compress_threshold_kb: "session_auto_compress_threshold_kb".to_string(),
            session_max_persisted_undo_depth: "session_max_persisted_undo_depth".to_string(),
            session_backup_retention: "session_backup_retention".to_string(),
            session_autosave_enabled: false,
            session_autosave_idle_ms: "session_autosave_idle_ms".to_string(),
            session_autosave_interval_ms: "session_autosave_interval_ms".to_string(),
            session_autosave_failure_backoff_ms: "session_autosave_failure_backoff_ms".to_string(),
        },
    }
}

#[test]
fn set_toggle_changes_only_its_flag() {
    let mut draft = sample_draft();
    draft.set_toggle(ToggleField::UiShowStatusBar, true);
    assert!(draft.ui.ui_show_status_bar);
    assert!(!draft.ui.ui_show_frozen_badge);
    draft.set_toggle(ToggleField::BoardsAutoCreate, true);
    assert!(draft.boards.auto_create);
    assert!(!draft.boards.show_board_badge);
    draft.set_toggle(ToggleField::UiToolbarShowZoomActions, true);
    assert!(draft.toolbar_sections.ui_toolbar_show_zoom_actions);
    draft.set_toggle(ToggleField::SessionAutosaveEnabled, true);
    assert!(draft.session.session_autosave_enabled);
    draft.set_toggle(ToggleField::UiShowStatusBar, false);
    assert!(!draft.ui.ui_show_status_bar);
    assert!(draft.boards.auto_create);
}

#[test]
fn set_text_writes_the_field_and_marks_custom_fonts() {
    let mut draft = sample_draft();
    draft.set_text(TextField::DrawingThickness, "4.5".to_string());
    assert_eq!(draft.drawing.drawing_default_thickness, "4.5");
    draft.set_text(TextField::DrawingColorName, "blue".to_string());
    assert_eq!(draft.drawing.drawing_color.name, "blue");
    assert_eq!(draft.drawing.drawing_color.rgb, vec!["255", "0", "0"]);
    draft.set_text(TextField::BoardsMaxCount, "9".to_string());
    assert_eq!(draft.boards.max_count, "9");
    assert_ne!(draft.drawing.drawing_font_weight_option, FontWeightOption::Custom);
    draft.set_text(TextField::DrawingFontWeight, "650".to_string());
    assert_eq!(draft.drawing.drawing_font_weight, "650");
    assert_eq!(draft.drawing.drawing_font_weight_option, FontWeightOption::Custom);
    draft.set_text(TextField::DrawingFontStyle, "slanted".to_string());
    assert_eq!(draft.drawing.drawing_font_style_option, FontStyleOption::Custom);
    draft.set_text(TextField::SessionAutosaveIdleMs, "1500".to_string());
    assert_eq!(draft.session.session_autosave_idle_ms, "1500");
    assert_eq!(draft.drawing.drawing_default_thickness, "4.5");
}

#[test]
fn triplet_and_quad_components_ignore_out_of_range_indices() {
    let mut draft = sample_draft();
    draft.set_triplet(TripletField::DrawingColorRgb, 1, "128".to_string());
    assert_eq!(draft.drawing.drawing_color.rgb, vec!["255", "128", "0"]);
    draft.set_triplet(TripletField::DrawingColorRgb, 3, "7".to_string());
    assert_eq!(draft.drawing.drawing_color.rgb, vec!["255", "128", "0"]);

    draft.set_quad(QuadField::HelpBorder, 3, "0.5".to_string());
    assert_eq!(draft.help.help_border_color.components, vec!["0", "0", "0", "0.5"]);
    assert_eq!(draft.help.help_bg_color.components, vec!["0", "0", "0", "1"]);
    draft.set_quad(QuadField::StatusBarText, 4, "9".to_string());
    assert_eq!(draft.status.status_bar_text_color.components, vec!["0", "0", "0", "1"]);
}

#[test]
fn drag_tools_bind_per_gesture() {
    let mut draft = sample_draft();
    draft.set_drag_tool(DragToolField::ShiftDrag, ToolOption::Line);
    draft.set_drag_tool(DragToolField::TabDrag, ToolOption::Eraser);
    assert_eq!(draft.drawing.drawing_shift_drag_tool, ToolOption::Line);
    assert_eq!(draft.drawing.drawing_tab_drag_tool, ToolOption::Eraser);
    assert_eq!(draft.drawing.drawing_drag_tool, ToolOption::Select);
}

#[test]
fn toolbar_override_touches_one_layout() {
    let mut draft = sample_draft();
    draft.set_toolbar_override(
        ToolbarLayoutModeOption::Regular,
        ToolbarOverrideField::ShowPagesSection,
        OverrideOption::Hide,
    );
    assert_eq!(
        draft.ui_toolbar_mode_overrides.regular.show_pages_section,
        OverrideOption::Hide
    );
    assert_eq!(
        draft.ui_toolbar_mode_overrides.simple.show_pages_section,
        OverrideOption::Default
    );
    assert_eq!(
        draft.ui_toolbar_mode_overrides.regular.show_presets,
        OverrideOption::Default
    );
}

#[test]
fn layout_mode_resets_sections_to_its_defaults() {
    let mut draft = sample_draft();
    draft.set_toggle(ToggleField::UiToolbarShowDelaySliders, true);
    draft.apply_toolbar_layout_mode(ToolbarLayoutModeOption::Advanced);
    assert_eq!(draft.toolbar.ui_toolbar_layout_mode, ToolbarLayoutModeOption::Advanced);
    assert!(draft.toolbar_sections.ui_toolbar_show_step_section);
    assert!(draft.toolbar_sections.ui_toolbar_show_actions_advanced);
    // Flags outside the layout defaults keep their values.
    assert!(draft.toolbar.ui_toolbar_show_delay_sliders);

    draft.apply_toolbar_layout_mode(ToolbarLayoutModeOption::Simple);
    assert!(draft.toolbar_sections.ui_toolbar_show_actions_section);
    assert!(!draft.toolbar_sections.ui_toolbar_show_step_section);
    assert!(!draft.toolbar_sections.ui_toolbar_show_presets);
    let defaults = ToolbarLayoutModeOption::Simple.section_defaults();
    assert_eq!(draft.toolbar_sections.ui_toolbar_show_zoom_actions, defaults.show_zoom_actions);
}

#[test]
fn typing_a_colour_name_selects_the_named_colour() {
    let mut draft = sample_draft();
    draft.set_text(TextField::DrawingColorName, " Orange ".to_string());
    assert_eq!(draft.drawing.drawing_color.name, " Orange ");
    assert_eq!(draft.drawing.drawing_color.selected_named, NamedColorOption::Orange);
    draft.set_text(TextField::DrawingColorName, "teal".to_string());
    assert_eq!(draft.drawing.drawing_color.selected_named, NamedColorOption::Custom);
    assert_eq!(named_color_for(&"BLACK".to_string()), NamedColorOption::Black);
    assert_eq!(named_color_for(&"".to_string()), NamedColorOption::Custom);
}

#[test]
fn toggles_on_distinct_fields_commute() {
    let mut a = sample_draft();
    a.set_toggle(ToggleField::UiToolbarTopPinned, true);
    a.set_toggle(ToggleField::UiToolbarShowPresets, false);
    let mut b = sample_draft();
    b.set_toggle(ToggleField::UiToolbarShowPresets, false);
    b.set_toggle(ToggleField::UiToolbarTopPinned, true);
    assert_eq!(a.toolbar.ui_toolbar_top_pinned, b.toolbar.ui_toolbar_top_pinned);
    assert_eq!(a.toolbar_sections.ui_toolbar_show_presets, b.toolbar_sections.ui_toolbar_show_presets);
    assert!(a.toolbar.ui_toolbar_top_pinned && !a.toolbar_sections.ui_toolbar_show_presets);
}
