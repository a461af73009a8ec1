use wayscriber::config_draft::{
    PresenterToolBehaviorOption, SessionCompressionOption, SessionStorageModeOption,
    StatusPositionOption, ToolbarLayoutModeOption,
};
use wayscriber::config_draft::{
    BoardsDraft, ColorInput, ColorQuadInput, EraserModeOption, FontStyleOption, FontWeightOption,
    NamedColorOption, OverrideOption, ToolOption,
};
use wayscriber::config_ui::{
    apply_ui_plain, capture_draft_from_config, draft_from_config, history_draft_from_config,
    overrides_draft_from_config, overrides_from_draft, parse_u64_text,
    performance_draft_from_config, presenter_draft_from_config, session_draft_from_config,
    toolbar_draft_from_config, toolbar_sections_from_config, trimmed, ui_draft_from_config,
    CaptureConfigModel, ConfigModel, DrawingConfigModel, FieldError, HistoryConfigModel,
    ModeOverridesModel, PerformanceConfigModel, PresenterConfigModel, PreparedFields,
    SessionConfigModel, ToolbarConfigModel, ToolbarModeOverridesModel, ToolbarOffsetTexts,
    UiConfigModel, XdgFocusLossBehavior,
};
use wayscriber::zoom::ZoomPanState;

fn toolbar_model() -> ToolbarConfigModel {
    ToolbarConfigModel {
        top_pinned: true,
        side_pinned: false,
        use_icons: true,
        show_more_colors: false,
        show_preset_toasts: true,
        layout_mode: ToolbarLayoutModeOption::Regular,
        show_presets: true,
        show_actions_section: false,
        show_actions_advanced: true,
        show_zoom_actions: false,
        show_pages_section: true,
        show_boards_section: false,
        show_step_section: true,
        show_text_controls: false,
        show_settings_section: true,
        show_delay_sliders: false,
        show_marker_opacity_section: true,
        show_tool_preview: false,
        force_inline: true,
    }
}

fn no_overrides() -> ModeOverridesModel {
    ModeOverridesModel {
        show_presets: None,
        show_actions_section: None,
        show_actions_advanced: None,
        show_zoom_actions: None,
        show_pages_section: None,
        show_boards_section: None,
        show_step_section: None,
        show_text_controls: None,
        show_settings_section: None,
    }
}

fn overrides_model() -> ToolbarModeOverridesModel {
    let mut regular = no_overrides();
    regular.show_presets = Some(true);
    regular.show_zoom_actions = Some(false);
    ToolbarModeOverridesModel { simple: no_overrides(), regular, advanced: no_overrides() }
}

fn ui_model() -> UiConfigModel {
    UiConfigModel {
        show_status_bar: true,
        show_status_board_badge: false,
        show_status_page_badge: true,
        show_floating_badge_always: false,
        show_frozen_badge: true,
        show_capabilities_warning: false,
        context_menu_enabled: true,
        preferred_output: Some("DP-1".to_string()),
        xdg_focus_loss_behavior: XdgFocusLossBehavior::Stay,
        command_palette_toast_duration_ms: 2500,
        toolbar: toolbar_model(),
        toolbar_mode_overrides: overrides_model(),
        status_bar_position: StatusPositionOption::BottomRight,
        click_highlight_enabled: true,
        click_highlight_show_on_highlight_tool: false,
        click_highlight_use_pen_color: true,
        click_highlight_duration_ms: 750,
        help_font_family: "Sans".to_string(),
        help_overlay_context_filter: true,
    }
}

fn offsets() -> ToolbarOffsetTexts {
    ToolbarOffsetTexts {
        top_offset: "12".to_string(),
        top_offset_y: "4.5".to_string(),
        side_offset: "0".to_string(),
        side_offset_x: "8".to_string(),
    }
}

#[test]
fn drafts_are_filled_from_the_configuration() {
    let m = ui_model();
    let ui = ui_draft_from_config(&m);
    assert!(ui.ui_show_status_bar && !ui.ui_show_status_board_badge && ui.ui_show_status_page_badge);
    assert_eq!(ui.ui_preferred_output, "DP-1");
    assert!(ui.ui_xdg_keep_on_focus_loss);
    assert_eq!(ui.ui_command_palette_toast_duration_ms, "2500");
    let mut none = ui_model();
    none.preferred_output = None;
    none.xdg_focus_loss_behavior = XdgFocusLossBehavior::Exit;
    let ui = ui_draft_from_config(&none);
    assert_eq!(ui.ui_preferred_output, "");
    assert!(!ui.ui_xdg_keep_on_focus_loss);

    let t = toolbar_draft_from_config(&m.toolbar, offsets());
    assert_eq!(t.ui_toolbar_layout_mode, ToolbarLayoutModeOption::Regular);
    assert!(t.ui_toolbar_force_inline && t.ui_toolbar_top_pinned && !t.ui_toolbar_side_pinned);
    assert_eq!(t.ui_toolbar_top_offset_y, "4.5");
    let s = toolbar_sections_from_config(&m.toolbar);
    assert!(s.ui_toolbar_show_presets && !s.ui_toolbar_show_actions_section && s.ui_toolbar_show_settings_section);

    let p = presenter_draft_from_config(&PresenterConfigModel {
        hide_status_bar: true,
        hide_toolbars: false,
        hide_tool_preview: true,
        close_help_overlay: false,
        enable_click_highlight: true,
        tool_behavior: PresenterToolBehaviorOption::ForceHighlight,
        show_toast: false,
    });
    assert!(p.presenter_hide_status_bar && !p.presenter_hide_toolbars);
    assert_eq!(p.presenter_tool_behavior, PresenterToolBehaviorOption::ForceHighlight);

    let c = capture_draft_from_config(&CaptureConfigModel {
        enabled: true,
        save_directory: "~/Pictures".to_string(),
        filename_template: "shot_%Y".to_string(),
        format: "png".to_string(),
        copy_to_clipboard: false,
        exit_after_capture: true,
    });
    assert!(c.capture_enabled && !c.capture_copy_to_clipboard && c.capture_exit_after);
    assert_eq!(c.capture_save_directory, "~/Pictures");
    assert_eq!(c.capture_format, "png");
}

#[test]
fn whole_number_fields_read_like_std() {
    assert_eq!(parse_u64_text(&"42".to_string()), Some(42));
    assert_eq!(parse_u64_text(&"  +7 ".to_string()), Some(7));
    assert_eq!(parse_u64_text(&"18446744073709551615".to_string()), Some(u64::MAX));
    assert_eq!(parse_u64_text(&"18446744073709551616".to_string()), None);
    assert_eq!(parse_u64_text(&"".to_string()), None);
    assert_eq!(parse_u64_text(&"+".to_string()), None);
    assert_eq!(parse_u64_text(&"-1".to_string()), None);
    assert_eq!(parse_u64_text(&"1.5".to_string()), None);
    assert_eq!(trimmed(&"  a b \n".to_string()), "a b");
}

fn quad(a: &str) -> ColorQuadInput {
    ColorQuadInput { components: vec![a.to_string(), a.to_string(), a.to_string(), "1".to_string()] }
}

fn prepared() -> PreparedFields {
    PreparedFields {
        drawing_color: ColorInput {
            name: "red".to_string(),
            rgb: vec!["255".to_string(), "0".to_string(), "0".to_string()],
            selected_named: NamedColorOption::Red,
        },
        drawing_default_thickness: "3".to_string(),
        drawing_default_eraser_size: "12".to_string(),
        drawing_default_font_size: "32".to_string(),
        drawing_marker_opacity: "0.32".to_string(),
        drawing_hit_test_tolerance: "6".to_string(),
        font_style_option: FontStyleOption::Normal,
        font_style: "normal".to_string(),
        font_weight_option: FontWeightOption::Bold,
        font_weight: "bold".to_string(),
        arrow_length: "20".to_string(),
        arrow_angle: "30".to_string(),
        toolbar_offsets: offsets(),
        status_font_size: "21".to_string(),
        status_padding: "15".to_string(),
        status_bar_bg_color: quad("0"),
        status_bar_text_color: quad("1"),
        status_dot_radius: "4".to_string(),
        click_highlight_radius: "24".to_string(),
        click_highlight_outline_thickness: "4".to_string(),
        click_highlight_fill_color: quad("1"),
        click_highlight_outline_color: quad("0.5"),
        help_font_size: "14".to_string(),
        help_line_height: "22".to_string(),
        help_padding: "32".to_string(),
        help_bg_color: quad("0.1"),
        help_border_color: quad("0.2"),
        help_border_width: "2".to_string(),
        help_text_color: quad("0.9"),
    }
}

fn config_model() -> ConfigModel {
    ConfigModel {
        drawing: DrawingConfigModel {
            default_eraser_mode: EraserModeOption::Stroke,
            hit_test_linear_threshold: 400,
            undo_stack_limit: 100,
            font_family: "Sans".to_string(),
            text_background_enabled: true,
            default_fill_enabled: false,
            drag_tool: ToolOption::Pen,
            shift_drag_tool: ToolOption::Line,
            ctrl_drag_tool: ToolOption::Rect,
            ctrl_shift_drag_tool: ToolOption::Arrow,
            tab_drag_tool: ToolOption::Ellipse,
        },
        arrow_head_at_end: true,
        history: HistoryConfigModel {
            undo_all_delay_ms: 1000,
            redo_all_delay_ms: 1000,
            custom_section_enabled: false,
            custom_undo_delay_ms: 1,
            custom_redo_delay_ms: 2,
            custom_undo_steps: 3,
            custom_redo_steps: 4,
        },
        performance: PerformanceConfigModel { buffer_count: 3, enable_vsync: true, max_fps_no_vsync: 60, ui_animation_fps: 30 },
        ui: ui_model(),
        presenter: PresenterConfigModel {
            hide_status_bar: true,
            hide_toolbars: true,
            hide_tool_preview: false,
            close_help_overlay: true,
            enable_click_highlight: false,
            tool_behavior: PresenterToolBehaviorOption::Keep,
            show_toast: true,
        },
        capture: CaptureConfigModel {
            enabled: true,
            save_directory: "/tmp".to_string(),
            filename_template: "s".to_string(),
            format: "png".to_string(),
            copy_to_clipboard: true,
            exit_after_capture: false,
        },
        session: SessionConfigModel {
            persist_transparent: false,
            persist_whiteboard: true,
            persist_blackboard: true,
            persist_history: true,
            restore_tool_state: true,
            per_output: true,
            storage: SessionStorageModeOption::Auto,
            custom_directory: None,
            max_shapes_per_frame: 10000,
            max_file_size_mb: 10,
            compress: SessionCompressionOption::Auto,
            auto_compress_threshold_kb: 100,
            max_persisted_undo_depth: None,
            backup_retention: 1,
            autosave_enabled: true,
            autosave_idle_ms: 5000,
            autosave_interval_ms: 60000,
            autosave_failure_backoff_ms: 30000,
        },
    }
}

fn boards() -> BoardsDraft {
    BoardsDraft { auto_create: true, show_board_badge: false, persist_customizations: true, max_count: "9".to_string() }
}

#[test]
fn the_whole_draft_is_filled_section_by_section() {
    let d = draft_from_config(&config_model(), prepared(), boards());
    assert_eq!(d.drawing.drawing_default_eraser_mode, EraserModeOption::Stroke);
    assert_eq!(d.drawing.drawing_hit_test_linear_threshold, "400");
    assert_eq!(d.drawing.drawing_undo_stack_limit, "100");
    assert_eq!(d.drawing.drawing_font_family, "Sans");
    assert_eq!(d.drawing.drawing_font_weight_option, FontWeightOption::Bold);
    assert!(d.drawing.drawing_text_background_enabled && !d.drawing.drawing_default_fill_enabled);
    assert_eq!(d.drawing.drawing_tab_drag_tool, ToolOption::Ellipse);
    assert!(d.arrow.arrow_head_at_end);
    assert_eq!(d.arrow.arrow_angle, "30");
    assert_eq!(d.status.ui_status_position, StatusPositionOption::BottomRight);
    assert!(d.click_highlight.click_highlight_enabled && d.click_highlight.click_highlight_use_pen_color);
    assert_eq!(d.click_highlight.click_highlight_duration_ms, "750");
    assert_eq!(d.help.help_font_family, "Sans");
    assert!(d.help.help_context_filter);
    assert_eq!(d.ui_toolbar_mode_overrides.regular.show_presets, OverrideOption::Show);
    assert_eq!(d.ui_toolbar_mode_overrides.regular.show_zoom_actions, OverrideOption::Hide);
    assert_eq!(d.ui_toolbar_mode_overrides.simple.show_presets, OverrideOption::Default);
    assert_eq!(d.boards.max_count, "9");
    assert_eq!(d.session.session_max_shapes_per_frame, "10000");
    assert_eq!(d.performance.performance_max_fps_no_vsync, "60");
}

#[test]
fn overrides_survive_a_round_trip() {
    let m = overrides_model();
    assert_eq!(overrides_from_draft(&overrides_draft_from_config(&m)), m);
}

#[test]
fn applying_the_draft_writes_plain_fields_back() {
    let mut d = draft_from_config(&config_model(), prepared(), boards());
    d.status.ui_status_position = StatusPositionOption::TopLeft;
    d.click_highlight.click_highlight_enabled = false;
    d.click_highlight.click_highlight_duration_ms = " 900 ".to_string();
    d.help.help_font_family = "  Mono ".to_string();
    d.help.help_context_filter = false;
    d.ui_toolbar_mode_overrides.advanced.show_step_section = OverrideOption::Hide;
    let mut target = ui_model();
    target.show_status_bar = false;
    target.preferred_output = None;
    target.command_palette_toast_duration_ms = 1;
    target.toolbar.force_inline = false;
    target.toolbar_mode_overrides = ToolbarModeOverridesModel {
        simple: no_overrides(),
        regular: no_overrides(),
        advanced: no_overrides(),
    };
    let mut errors: Vec<FieldError> = Vec::new();
    apply_ui_plain(&d, &mut target, &mut errors);
    assert!(errors.is_empty());
    assert!(target.show_status_bar);
    assert_eq!(target.preferred_output.as_deref(), Some("DP-1"));
    assert_eq!(target.command_palette_toast_duration_ms, 2500);
    assert_eq!(target.toolbar, toolbar_model());
    assert_eq!(target.status_bar_position, StatusPositionOption::TopLeft);
    assert!(!target.click_highlight_enabled);
    assert_eq!(target.click_highlight_duration_ms, 900);
    assert_eq!(target.help_font_family, "Mono");
    assert!(!target.help_overlay_context_filter);
    assert_eq!(target.xdg_focus_loss_behavior, XdgFocusLossBehavior::Stay);
    assert_eq!(target.toolbar_mode_overrides.regular.show_presets, Some(true));
    assert_eq!(target.toolbar_mode_overrides.advanced.show_step_section, Some(false));
}

#[test]
fn unreadable_durations_keep_their_value_and_report_their_keys() {
    let mut d = draft_from_config(&config_model(), prepared(), boards());
    d.ui.ui_command_palette_toast_duration_ms = "soon".to_string();
    d.ui.ui_preferred_output = "   ".to_string();
    d.click_highlight.click_highlight_duration_ms = "-5".to_string();
    let mut target = ui_model();
    let mut errors = vec![FieldError { field: "earlier".to_string() }];
    apply_ui_plain(&d, &mut target, &mut errors);
    assert_eq!(errors.len(), 3);
    assert_eq!(errors[0].field, "earlier");
    assert_eq!(errors[1].field, "ui.command_palette_toast_duration_ms");
    assert_eq!(errors[2].field, "ui.click_highlight.duration_ms");
    assert_eq!(target.command_palette_toast_duration_ms, 2500);
    assert_eq!(target.click_highlight_duration_ms, 750);
    assert_eq!(target.preferred_output, None);
}

#[test]
fn zoom_panning_starts_and_stops() {
    let mut z = ZoomPanState::new();
    assert!(!z.panning);
    z.start_pan();
    assert!(z.panning);
    z.stop_pan();
    assert!(!z.panning);
}

#[test]
fn numeric_sections_are_written_as_decimal_text() {
    let h = history_draft_from_config(&HistoryConfigModel {
        undo_all_delay_ms: 1000,
        redo_all_delay_ms: 0,
        custom_section_enabled: true,
        custom_undo_delay_ms: 250,
        custom_redo_delay_ms: 300,
        custom_undo_steps: 5,
        custom_redo_steps: 10,
    });
    assert_eq!(h.history_undo_all_delay_ms, "1000");
    assert_eq!(h.history_redo_all_delay_ms, "0");
    assert!(h.history_custom_section_enabled);
    assert_eq!(h.history_custom_redo_steps, "10");
    let p = performance_draft_from_config(&PerformanceConfigModel {
        buffer_count: 3,
        enable_vsync: false,
        max_fps_no_vsync: 120,
        ui_animation_fps: 30,
    });
    assert_eq!(p.performance_buffer_count, 3);
    assert_eq!(p.performance_max_fps_no_vsync, "120");
    let mut session = SessionConfigModel {
        persist_transparent: true,
        persist_whiteboard: false,
        persist_blackboard: true,
        persist_history: false,
        restore_tool_state: true,
        per_output: false,
        storage: SessionStorageModeOption::Custom,
        custom_directory: Some("/var/tmp/s".to_string()),
        max_shapes_per_frame: 10000,
        max_file_size_mb: 10,
        compress: SessionCompressionOption::Auto,
        auto_compress_threshold_kb: 100,
        max_persisted_undo_depth: Some(50),
        backup_retention: 1,
        autosave_enabled: true,
        autosave_idle_ms: 5000,
        autosave_interval_ms: 60000,
        autosave_failure_backoff_ms: 30000,
    };
    let d = session_draft_from_config(&session);
    assert_eq!(d.session_custom_directory, "/var/tmp/s");
    assert_eq!(d.session_max_persisted_undo_depth, "50");
    assert_eq!(d.session_max_shapes_per_frame, "10000");
    assert_eq!(d.session_storage_mode, SessionStorageModeOption::Custom);
    session.custom_directory = None;
    session.max_persisted_undo_depth = None;
    let d = session_draft_from_config(&session);
    assert_eq!(d.session_custom_directory, "");
    assert_eq!(d.session_max_persisted_undo_depth, "");
}
