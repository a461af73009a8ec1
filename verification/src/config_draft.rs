//! The configurator's editable copy of the configuration: text fields hold what the user
//! typed, toggles and choices hold their current values, and each setter writes one of them.
use vstd::prelude::*;
use crate::text::{chars_of, eq_ignore_ascii_case, range_eq_ignore_ascii_case, trim, trim_range};

verus! {

/// Boolean settings that the configurator edits.
#[derive(Debug, Clone, Copy, PartialEq, Eq, Structural)]
pub enum ToggleField {
    DrawingTextBackground,
    DrawingFillEnabled,
    PerformanceVsync,
    UiShowStatusBar,
    UiShowFrozenBadge,
    UiShowCapabilitiesWarning,
    UiHelpOverlayContextFilter,
    UiContextMenuEnabled,
    UiXdgKeepOnFocusLoss,
    UiToolbarTopPinned,
    UiToolbarSidePinned,
    UiToolbarUseIcons,
    UiToolbarShowMoreColors,
    UiToolbarPresetToasts,
    UiToolbarShowPresets,
    UiToolbarShowActionsSection,
    UiToolbarShowActionsAdvanced,
    UiToolbarShowZoomActions,
    UiToolbarShowPagesSection,
    UiToolbarShowBoardsSection,
    UiToolbarShowStepSection,
    UiToolbarShowTextControls,
    UiToolbarShowSettingsSection,
    UiToolbarShowDelaySliders,
    UiToolbarShowMarkerOpacitySection,
    UiToolbarShowToolPreview,
    UiToolbarForceInline,
    UiClickHighlightEnabled,
    UiClickHighlightShowOnHighlightTool,
    UiClickHighlightUsePenColor,
    UiShowStatusBoardBadge,
    UiShowStatusPageBadge,
    UiShowPageBadgeWithStatusBar,
    PresenterHideStatusBar,
    PresenterHideToolbars,
    PresenterHideToolPreview,
    PresenterCloseHelpOverlay,
    PresenterEnableClickHighlight,
    PresenterShowToast,
    BoardsAutoCreate,
    BoardsShowBadge,
    BoardsPersistCustomizations,
    CaptureEnabled,
    CaptureCopyToClipboard,
    CaptureExitAfter,
    SessionPersistTransparent,
    SessionPersistWhiteboard,
    SessionPersistBlackboard,
    SessionPersistHistory,
    SessionRestoreToolState,
    SessionPerOutput,
    SessionAutosaveEnabled,
    HistoryCustomSectionEnabled,
    ArrowHeadAtEnd,
}

/// Boolean settings of a tool preset.
#[derive(Debug, Clone, Copy, PartialEq, Eq, Structural)]
pub enum PresetToggleField {
    FillEnabled,
    TextBackgroundEnabled,
    ArrowHeadAtEnd,
    ShowStatusBar,
}

/// Free-text settings that the configurator edits.
#[derive(Debug, Clone, Copy, PartialEq, Eq, Structural)]
pub enum TextField {
    DrawingColorName,
    DrawingThickness,
    DrawingEraserSize,
    DrawingFontSize,
    DrawingMarkerOpacity,
    DrawingFontFamily,
    DrawingFontWeight,
    DrawingFontStyle,
    DrawingHitTestTolerance,
    DrawingHitTestThreshold,
    DrawingUndoStackLimit,
    ArrowLength,
    ArrowAngle,
    PerformanceMaxFpsNoVsync,
    PerformanceUiAnimationFps,
    HistoryUndoAllDelayMs,
    HistoryRedoAllDelayMs,
    HistoryCustomUndoDelayMs,
    HistoryCustomRedoDelayMs,
    HistoryCustomUndoSteps,
    HistoryCustomRedoSteps,
    UiPreferredOutput,
    StatusFontSize,
    StatusPadding,
    StatusDotRadius,
    HighlightRadius,
    HighlightOutlineThickness,
    HighlightDurationMs,
    HelpFontFamily,
    HelpFontSize,
    HelpLineHeight,
    HelpPadding,
    HelpBorderWidth,
    UiCommandPaletteToastDurationMs,
    CaptureSaveDirectory,
    CaptureFilename,
    CaptureFormat,
    ToolbarTopOffset,
    ToolbarTopOffsetY,
    ToolbarSideOffset,
    ToolbarSideOffsetX,
    BoardsMaxCount,
    SessionCustomDirectory,
    SessionMaxShapesPerFrame,
    SessionMaxFileSizeMb,
    SessionAutoCompressThresholdKb,
    SessionMaxPersistedUndoDepth,
    SessionBackupRetention,
    SessionAutosaveIdleMs,
    SessionAutosaveIntervalMs,
    SessionAutosaveFailureBackoffMs,
}

/// Free-text settings of a tool preset.
#[derive(Debug, Clone, Copy, PartialEq, Eq, Structural)]
pub enum PresetTextField {
    Name,
    ColorName,
    Size,
    MarkerOpacity,
    FontSize,
    ArrowLength,
    ArrowAngle,
}

/// Settings edited as three text components.
#[derive(Debug, Clone, Copy, PartialEq, Eq, Structural)]
pub enum TripletField {
    DrawingColorRgb,
}

/// Settings edited as four text components.
#[derive(Debug, Clone, Copy, PartialEq, Eq, Structural)]
pub enum QuadField {
    StatusBarBg,
    StatusBarText,
    HelpBg,
    HelpBorder,
    HelpText,
    HighlightFill,
    HighlightOutline,
}

/// Which drag gesture a tool binding belongs to.
#[derive(Debug, Clone, Copy, PartialEq, Eq, Structural)]
pub enum DragToolField {
    Drag,
    ShiftDrag,
    CtrlDrag,
    CtrlShiftDrag,
    TabDrag,
}

/// A tool that a drag gesture can start.
#[derive(Debug, Clone, Copy, PartialEq, Eq, Structural)]
pub enum ToolOption {
    Select,
    Pen,
    Line,
    Rect,
    Ellipse,
    Arrow,
    Marker,
    Highlight,
    Eraser,
}

#[derive(Debug, Clone, Copy, PartialEq, Eq, Structural)]
pub enum FontStyleOption {
    Normal,
    Italic,
    Oblique,
    Custom,
}

#[derive(Debug, Clone, Copy, PartialEq, Eq, Structural)]
pub enum FontWeightOption {
    Normal,
    Bold,
    Light,
    Custom,
}

#[derive(Debug, Clone, Copy, PartialEq, Eq, Structural)]
pub enum EraserModeOption {
    Brush,
    Stroke,
}

#[derive(Debug, Clone, Copy, PartialEq, Eq, Structural)]
pub enum StatusPositionOption {
    TopLeft,
    TopRight,
    BottomLeft,
    BottomRight,
}

#[derive(Debug, Clone, Copy, PartialEq, Eq, Structural)]
pub enum PresenterToolBehaviorOption {
    Keep,
    ForceHighlight,
}

#[derive(Debug, Clone, Copy, PartialEq, Eq, Structural)]
pub enum SessionStorageModeOption {
    Auto,
    Config,
    Custom,
}

#[derive(Debug, Clone, Copy, PartialEq, Eq, Structural)]
pub enum SessionCompressionOption {
    Auto,
    On,
    Off,
}

/// Toolbar layout presets; each comes with its own default set of visible sections.
#[derive(Debug, Clone, Copy, PartialEq, Eq, Structural)]
pub enum ToolbarLayoutModeOption {
    Simple,
    Regular,
    Advanced,
}

/// Which sections a toolbar layout shows by default.
#[derive(Debug, Clone, Copy, PartialEq, Eq, Structural)]
pub struct ToolbarSectionDefaults {
    pub show_actions_section: bool,
    pub show_actions_advanced: bool,
    pub show_zoom_actions: bool,
    pub show_pages_section: bool,
    pub show_boards_section: bool,
    pub show_presets: bool,
    pub show_step_section: bool,
    pub show_text_controls: bool,
    pub show_settings_section: bool,
}

pub open spec fn spec_section_defaults(mode: ToolbarLayoutModeOption) -> ToolbarSectionDefaults {
    match mode {
        ToolbarLayoutModeOption::Simple => ToolbarSectionDefaults {
            show_actions_section: true,
            show_actions_advanced: false,
            show_zoom_actions: false,
            show_pages_section: false,
            show_boards_section: false,
            show_presets: false,
            show_step_section: false,
            show_text_controls: false,
            show_settings_section: false,
        },
        ToolbarLayoutModeOption::Regular => ToolbarSectionDefaults {
            show_actions_section: true,
            show_actions_advanced: false,
            show_zoom_actions: true,
            show_pages_section: true,
            show_boards_section: true,
            show_presets: true,
            show_step_section: false,
            show_text_controls: true,
            show_settings_section: true,
        },
        ToolbarLayoutModeOption::Advanced => ToolbarSectionDefaults {
            show_actions_section: true,
            show_actions_advanced: true,
            show_zoom_actions: true,
            show_pages_section: true,
            show_boards_section: true,
            show_presets: true,
            show_step_section: true,
            show_text_controls: true,
            show_settings_section: true,
        },
    }
}

impl ToolbarLayoutModeOption {
    /// The sections that this layout shows by default.
    pub fn section_defaults(self) -> (d: ToolbarSectionDefaults)
        ensures
            d == spec_section_defaults(self),
    {
        match self {
            ToolbarLayoutModeOption::Simple => ToolbarSectionDefaults {
                show_actions_section: true,
                show_actions_advanced: false,
                show_zoom_actions: false,
                show_pages_section: false,
                show_boards_section: false,
                show_presets: false,
                show_step_section: false,
                show_text_controls: false,
                show_settings_section: false,
            },
            ToolbarLayoutModeOption::Regular => ToolbarSectionDefaults {
                show_actions_section: true,
                show_actions_advanced: false,
                show_zoom_actions: true,
                show_pages_section: true,
                show_boards_section: true,
                show_presets: true,
                show_step_section: false,
                show_text_controls: true,
                show_settings_section: true,
            },
            ToolbarLayoutModeOption::Advanced => ToolbarSectionDefaults {
                show_actions_section: true,
                show_actions_advanced: true,
                show_zoom_actions: true,
                show_pages_section: true,
                show_boards_section: true,
                show_presets: true,
                show_step_section: true,
                show_text_controls: true,
                show_settings_section: true,
            },
        }
    }
}

/// A per-layout override of one toolbar section: keep the layout's default, or force it.
#[derive(Debug, Clone, Copy, PartialEq, Eq, Structural)]
pub enum OverrideOption {
    Default,
    Show,
    Hide,
}

/// The toolbar sections a layout override can force.
#[derive(Debug, Clone, Copy, PartialEq, Eq, Structural)]
pub enum ToolbarOverrideField {
    ShowPresets,
    ShowActionsSection,
    ShowActionsAdvanced,
    ShowZoomActions,
    ShowPagesSection,
    ShowBoardsSection,
    ShowStepSection,
    ShowTextControls,
    ShowSettingsSection,
}

/// The section overrides of one toolbar layout.
#[derive(Debug, Clone, Copy, PartialEq, Eq, Structural)]
pub struct ToolbarModeOverrideDraft {
    pub show_presets: OverrideOption,
    pub show_actions_section: OverrideOption,
    pub show_actions_advanced: OverrideOption,
    pub show_zoom_actions: OverrideOption,
    pub show_pages_section: OverrideOption,
    pub show_boards_section: OverrideOption,
    pub show_step_section: OverrideOption,
    pub show_text_controls: OverrideOption,
    pub show_settings_section: OverrideOption,
}

impl ToolbarModeOverrideDraft {
    /// The override with one section set.
    pub open spec fn with_field(self, field: ToolbarOverrideField, value: OverrideOption) -> ToolbarModeOverrideDraft {
        match field {
            ToolbarOverrideField::ShowPresets => ToolbarModeOverrideDraft { show_presets: value, ..self },
            ToolbarOverrideField::ShowActionsSection => ToolbarModeOverrideDraft { show_actions_section: value, ..self },
            ToolbarOverrideField::ShowActionsAdvanced => ToolbarModeOverrideDraft { show_actions_advanced: value, ..self },
            ToolbarOverrideField::ShowZoomActions => ToolbarModeOverrideDraft { show_zoom_actions: value, ..self },
            ToolbarOverrideField::ShowPagesSection => ToolbarModeOverrideDraft { show_pages_section: value, ..self },
            ToolbarOverrideField::ShowBoardsSection => ToolbarModeOverrideDraft { show_boards_section: value, ..self },
            ToolbarOverrideField::ShowStepSection => ToolbarModeOverrideDraft { show_step_section: value, ..self },
            ToolbarOverrideField::ShowTextControls => ToolbarModeOverrideDraft { show_text_controls: value, ..self },
            ToolbarOverrideField::ShowSettingsSection => ToolbarModeOverrideDraft { show_settings_section: value, ..self },
        }
    }

    pub fn set(&mut self, field: ToolbarOverrideField, value: OverrideOption)
        ensures
            *final(self) == old(self).with_field(field, value),
    {
        match field {
            ToolbarOverrideField::ShowPresets => self.show_presets = value,
            ToolbarOverrideField::ShowActionsSection => self.show_actions_section = value,
            ToolbarOverrideField::ShowActionsAdvanced => self.show_actions_advanced = value,
            ToolbarOverrideField::ShowZoomActions => self.show_zoom_actions = value,
            ToolbarOverrideField::ShowPagesSection => self.show_pages_section = value,
            ToolbarOverrideField::ShowBoardsSection => self.show_boards_section = value,
            ToolbarOverrideField::ShowStepSection => self.show_step_section = value,
            ToolbarOverrideField::ShowTextControls => self.show_text_controls = value,
            ToolbarOverrideField::ShowSettingsSection => self.show_settings_section = value,
        }
    }
}

/// Section overrides for every toolbar layout.
#[derive(Debug, Clone, Copy, PartialEq, Eq, Structural)]
pub struct ToolbarModeOverridesDraft {
    pub simple: ToolbarModeOverrideDraft,
    pub regular: ToolbarModeOverrideDraft,
    pub advanced: ToolbarModeOverrideDraft,
}

impl ToolbarModeOverridesDraft {
    pub open spec fn for_mode(self, mode: ToolbarLayoutModeOption) -> ToolbarModeOverrideDraft {
        match mode {
            ToolbarLayoutModeOption::Simple => self.simple,
            ToolbarLayoutModeOption::Regular => self.regular,
            ToolbarLayoutModeOption::Advanced => self.advanced,
        }
    }

    /// The overrides with one section of one layout set.
    pub open spec fn with_override(
        self,
        mode: ToolbarLayoutModeOption,
        field: ToolbarOverrideField,
        value: OverrideOption,
    ) -> ToolbarModeOverridesDraft {
        match mode {
            ToolbarLayoutModeOption::Simple => ToolbarModeOverridesDraft { simple: self.simple.with_field(field, value), ..self },
            ToolbarLayoutModeOption::Regular => ToolbarModeOverridesDraft { regular: self.regular.with_field(field, value), ..self },
            ToolbarLayoutModeOption::Advanced => ToolbarModeOverridesDraft { advanced: self.advanced.with_field(field, value), ..self },
        }
    }

    /// Sets one section override of the given layout.
    pub fn set(&mut self, mode: ToolbarLayoutModeOption, field: ToolbarOverrideField, value: OverrideOption)
        ensures
            *final(self) == old(self).with_override(mode, field, value),
    {
        match mode {
            ToolbarLayoutModeOption::Simple => self.simple.set(field, value),
            ToolbarLayoutModeOption::Regular => self.regular.set(field, value),
            ToolbarLayoutModeOption::Advanced => self.advanced.set(field, value),
        }
    }
}

/// The named drawing colours, or a colour that is none of them.
#[derive(Debug, Clone, Copy, PartialEq, Eq, Structural)]
pub enum NamedColorOption {
    Red,
    Green,
    Blue,
    Yellow,
    Orange,
    Pink,
    White,
    Black,
    Custom,
}

/// The named colour a typed name selects: the trimmed name compared without ASCII case.
pub open spec fn spec_named_color_for(name: Seq<char>) -> NamedColorOption {
    let t = trim(name);
    if eq_ignore_ascii_case(t, "red"@) {
        NamedColorOption::Red
    } else if eq_ignore_ascii_case(t, "green"@) {
        NamedColorOption::Green
    } else if eq_ignore_ascii_case(t, "blue"@) {
        NamedColorOption::Blue
    } else if eq_ignore_ascii_case(t, "yellow"@) {
        NamedColorOption::Yellow
    } else if eq_ignore_ascii_case(t, "orange"@) {
        NamedColorOption::Orange
    } else if eq_ignore_ascii_case(t, "pink"@) {
        NamedColorOption::Pink
    } else if eq_ignore_ascii_case(t, "white"@) {
        NamedColorOption::White
    } else if eq_ignore_ascii_case(t, "black"@) {
        NamedColorOption::Black
    } else {
        NamedColorOption::Custom
    }
}

/// The named colour a typed name selects (see `spec_named_color_for`).
pub fn named_color_for(name: &String) -> (o: NamedColorOption)
    ensures
        o == spec_named_color_for(name@),
{
    let v = chars_of(name.as_str());
    let (lo, hi) = trim_range(&v, 0, v.len());
    assert(v@.subrange(0, v@.len() as int) == v@);
    if range_eq_ignore_ascii_case(&v, lo, hi, &chars_of("red")) {
        NamedColorOption::Red
    } else if range_eq_ignore_ascii_case(&v, lo, hi, &chars_of("green")) {
        NamedColorOption::Green
    } else if range_eq_ignore_ascii_case(&v, lo, hi, &chars_of("blue")) {
        NamedColorOption::Blue
    } else if range_eq_ignore_ascii_case(&v, lo, hi, &chars_of("yellow")) {
        NamedColorOption::Yellow
    } else if range_eq_ignore_ascii_case(&v, lo, hi, &chars_of("orange")) {
        NamedColorOption::Orange
    } else if range_eq_ignore_ascii_case(&v, lo, hi, &chars_of("pink")) {
        NamedColorOption::Pink
    } else if range_eq_ignore_ascii_case(&v, lo, hi, &chars_of("white")) {
        NamedColorOption::White
    } else if range_eq_ignore_ascii_case(&v, lo, hi, &chars_of("black")) {
        NamedColorOption::Black
    } else {
        NamedColorOption::Custom
    }
}

/// A colour typed as a name or as red, green and blue components, with the named colour
/// that the typed name selects.
#[derive(Debug, Clone)]
pub struct ColorInput {
    pub name: String,
    pub rgb: Vec<String>,
    pub selected_named: NamedColorOption,
}

impl ColorInput {
    /// Sets the typed colour name, and the named colour it selects.
    pub fn set_name(&mut self, value: String)
        ensures
            *final(self) == (ColorInput {
                selected_named: spec_named_color_for(value@),
                name: value,
                ..*old(self)
            }),
    {
        let named = named_color_for(&value);
        self.name = value;
        self.selected_named = named;
    }

    /// Replaces one of the red, green and blue components; an index past them changes nothing.
    pub fn set_rgb_component(&mut self, index: usize, value: String)
        ensures
            final(self).rgb@ == replace_slot(old(self).rgb@, index, value),
            final(self).name == old(self).name,
            final(self).selected_named == old(self).selected_named,
    {
        set_slot(&mut self.rgb, index, value);
    }
}

/// A colour typed as red, green, blue and alpha components.
#[derive(Debug, Clone)]
pub struct ColorQuadInput {
    pub components: Vec<String>,
}

/// `slots` with slot `index` replaced, or unchanged when there is no such slot.
pub open spec fn replace_slot(slots: Seq<String>, index: usize, value: String) -> Seq<String> {
    if index < slots.len() {
        slots.update(index as int, value)
    } else {
        slots
    }
}

fn set_slot(slots: &mut Vec<String>, index: usize, value: String)
    ensures
        final(slots)@ == replace_slot(old(slots)@, index, value),
{
    if index < slots.len() {
        slots.set(index, value);
    }
}

impl ColorQuadInput {
    /// Replaces one component; an index past the components changes nothing.
    pub fn set_component(&mut self, index: usize, value: String)
        ensures
            final(self).components@ == replace_slot(old(self).components@, index, value),
    {
        set_slot(&mut self.components, index, value);
    }
}

/// Board settings being edited.
#[derive(Debug, Clone)]
pub struct BoardsDraft {
    pub auto_create: bool,
    pub show_board_badge: bool,
    pub persist_customizations: bool,
    pub max_count: String,
}

/// Drawing defaults: colour, sizes, font and drag tools.
#[derive(Debug, Clone)]
pub struct DrawingDraft {
    pub drawing_color: ColorInput,
    pub drawing_default_thickness: String,
    pub drawing_default_eraser_size: String,
    pub drawing_default_eraser_mode: EraserModeOption,
    pub drawing_default_font_size: String,
    pub drawing_marker_opacity: String,
    pub drawing_hit_test_tolerance: String,
    pub drawing_hit_test_linear_threshold: String,
    pub drawing_undo_stack_limit: String,
    pub drawing_font_family: String,
    pub drawing_font_weight: String,
    pub drawing_font_style: String,
    pub drawing_text_background_enabled: bool,
    pub drawing_default_fill_enabled: bool,
    pub drawing_drag_tool: ToolOption,
    pub drawing_shift_drag_tool: ToolOption,
    pub drawing_ctrl_drag_tool: ToolOption,
    pub drawing_ctrl_shift_drag_tool: ToolOption,
    pub drawing_tab_drag_tool: ToolOption,
    pub drawing_font_style_option: FontStyleOption,
    pub drawing_font_weight_option: FontWeightOption,
}

/// Arrow appearance.
#[derive(Debug, Clone)]
pub struct ArrowDraft {
    pub arrow_length: String,
    pub arrow_angle: String,
    pub arrow_head_at_end: bool,
}

/// Undo/redo-all delays and the custom history section.
#[derive(Debug, Clone)]
pub struct HistoryDraft {
    pub history_undo_all_delay_ms: String,
    pub history_redo_all_delay_ms: String,
    pub history_custom_section_enabled: bool,
    pub history_custom_undo_delay_ms: String,
    pub history_custom_redo_delay_ms: String,
    pub history_custom_undo_steps: String,
    pub history_custom_redo_steps: String,
}

/// Buffering, vsync and frame-rate limits.
#[derive(Debug, Clone)]
pub struct PerformanceDraft {
    pub performance_buffer_count: u32,
    pub performance_enable_vsync: bool,
    pub performance_max_fps_no_vsync: String,
    pub performance_ui_animation_fps: String,
}

/// Status badges, context menu, preferred output and focus behaviour.
#[derive(Debug, Clone)]
pub struct UiDraft {
    pub ui_show_status_bar: bool,
    pub ui_show_status_board_badge: bool,
    pub ui_show_status_page_badge: bool,
    pub ui_show_page_badge_with_status_bar: bool,
    pub ui_show_frozen_badge: bool,
    pub ui_show_capabilities_warning: bool,
    pub ui_context_menu_enabled: bool,
    pub ui_preferred_output: String,
    pub ui_xdg_keep_on_focus_loss: bool,
    pub ui_command_palette_toast_duration_ms: String,
}

/// Toolbar placement, look and layout.
#[derive(Debug, Clone)]
pub struct ToolbarDraft {
    pub ui_toolbar_top_pinned: bool,
    pub ui_toolbar_side_pinned: bool,
    pub ui_toolbar_use_icons: bool,
    pub ui_toolbar_show_more_colors: bool,
    pub ui_toolbar_show_preset_toasts: bool,
    pub ui_toolbar_layout_mode: ToolbarLayoutModeOption,
    pub ui_toolbar_show_delay_sliders: bool,
    pub ui_toolbar_show_marker_opacity_section: bool,
    pub ui_toolbar_show_tool_preview: bool,
    pub ui_toolbar_force_inline: bool,
    pub ui_toolbar_top_offset: String,
    pub ui_toolbar_top_offset_y: String,
    pub ui_toolbar_side_offset: String,
    pub ui_toolbar_side_offset_x: String,
}

/// Which toolbar sections are shown; a layout resets them to its defaults.
#[derive(Debug, Clone)]
pub struct ToolbarSectionsDraft {
    pub ui_toolbar_show_presets: bool,
    pub ui_toolbar_show_actions_section: bool,
    pub ui_toolbar_show_actions_advanced: bool,
    pub ui_toolbar_show_zoom_actions: bool,
    pub ui_toolbar_show_pages_section: bool,
    pub ui_toolbar_show_boards_section: bool,
    pub ui_toolbar_show_step_section: bool,
    pub ui_toolbar_show_text_controls: bool,
    pub ui_toolbar_show_settings_section: bool,
}

/// Status bar position and style.
#[derive(Debug, Clone)]
pub struct StatusDraft {
    pub ui_status_position: StatusPositionOption,
    pub status_font_size: String,
    pub status_padding: String,
    pub status_bar_bg_color: ColorQuadInput,
    pub status_bar_text_color: ColorQuadInput,
    pub status_dot_radius: String,
}

/// Click highlight settings.
#[derive(Debug, Clone)]
pub struct ClickHighlightDraft {
    pub click_highlight_enabled: bool,
    pub click_highlight_show_on_highlight_tool: bool,
    pub click_highlight_use_pen_color: bool,
    pub click_highlight_radius: String,
    pub click_highlight_outline_thickness: String,
    pub click_highlight_duration_ms: String,
    pub click_highlight_fill_color: ColorQuadInput,
    pub click_highlight_outline_color: ColorQuadInput,
}

/// Presenter mode settings.
#[derive(Debug, Clone)]
pub struct PresenterDraft {
    pub presenter_hide_status_bar: bool,
    pub presenter_hide_toolbars: bool,
    pub presenter_hide_tool_preview: bool,
    pub presenter_close_help_overlay: bool,
    pub presenter_enable_click_highlight: bool,
    pub presenter_tool_behavior: PresenterToolBehaviorOption,
    pub presenter_show_toast: bool,
}

/// Help overlay style.
#[derive(Debug, Clone)]
pub struct HelpDraft {
    pub help_font_family: String,
    pub help_font_size: String,
    pub help_line_height: String,
    pub help_padding: String,
    pub help_bg_color: ColorQuadInput,
    pub help_border_color: ColorQuadInput,
    pub help_border_width: String,
    pub help_text_color: ColorQuadInput,
    pub help_context_filter: bool,
}

/// Screen capture settings.
#[derive(Debug, Clone)]
pub struct CaptureDraft {
    pub capture_enabled: bool,
    pub capture_save_directory: String,
    pub capture_filename_template: String,
    pub capture_format: String,
    pub capture_copy_to_clipboard: bool,
    pub capture_exit_after: bool,
}

/// Session persistence settings.
#[derive(Debug, Clone)]
pub struct SessionDraft {
    pub session_persist_transparent: bool,
    pub session_persist_whiteboard: bool,
    pub session_persist_blackboard: bool,
    pub session_persist_history: bool,
    pub session_restore_tool_state: bool,
    pub session_per_output: bool,
    pub session_storage_mode: SessionStorageModeOption,
    pub session_custom_directory: String,
    pub session_max_shapes_per_frame: String,
    pub session_max_file_size_mb: String,
    pub session_compression: SessionCompressionOption,
    pub session_auto_compress_threshold_kb: String,
    pub session_max_persisted_undo_depth: String,
    pub session_backup_retention: String,
    pub session_autosave_enabled: bool,
    pub session_autosave_idle_ms: String,
    pub session_autosave_interval_ms: String,
    pub session_autosave_failure_backoff_ms: String,
}

/// The editable configuration, grouped by section.
#[derive(Debug, Clone)]
pub struct ConfigDraft {
    pub drawing: DrawingDraft,
    pub arrow: ArrowDraft,
    pub history: HistoryDraft,
    pub performance: PerformanceDraft,
    pub ui: UiDraft,
    pub toolbar: ToolbarDraft,
    pub toolbar_sections: ToolbarSectionsDraft,
    pub ui_toolbar_mode_overrides: ToolbarModeOverridesDraft,
    pub status: StatusDraft,
    pub click_highlight: ClickHighlightDraft,
    pub presenter: PresenterDraft,
    pub help: HelpDraft,
    pub boards: BoardsDraft,
    pub capture: CaptureDraft,
    pub session: SessionDraft,
}
impl DrawingDraft {
    /// This section with one toggle field set; other fields keep their values.
    pub open spec fn with_toggle(self, field: ToggleField, value: bool) -> DrawingDraft {
        match field {
            ToggleField::DrawingTextBackground => DrawingDraft { drawing_text_background_enabled: value, ..self },
            ToggleField::DrawingFillEnabled => DrawingDraft { drawing_default_fill_enabled: value, ..self },
            _ => self,
        }
    }

    fn set_toggle(&mut self, field: ToggleField, value: bool)
        ensures
            *final(self) == old(self).with_toggle(field, value),
    {
        match field {
            ToggleField::DrawingTextBackground => self.drawing_text_background_enabled = value,
            ToggleField::DrawingFillEnabled => self.drawing_default_fill_enabled = value,
            _ => {},
        }
    }
}

impl PerformanceDraft {
    /// This section with one toggle field set; other fields keep their values.
    pub open spec fn with_toggle(self, field: ToggleField, value: bool) -> PerformanceDraft {
        match field {
            ToggleField::PerformanceVsync => PerformanceDraft { performance_enable_vsync: value, ..self },
            _ => self,
        }
    }

    fn set_toggle(&mut self, field: ToggleField, value: bool)
        ensures
            *final(self) == old(self).with_toggle(field, value),
    {
        match field {
            ToggleField::PerformanceVsync => self.performance_enable_vsync = value,
            _ => {},
        }
    }
}

impl UiDraft {
    /// This section with one toggle field set; other fields keep their values.
    pub open spec fn with_toggle(self, field: ToggleField, value: bool) -> UiDraft {
        match field {
            ToggleField::UiShowStatusBar => UiDraft { ui_show_status_bar: value, ..self },
            ToggleField::UiShowFrozenBadge => UiDraft { ui_show_frozen_badge: value, ..self },
            ToggleField::UiShowCapabilitiesWarning => UiDraft { ui_show_capabilities_warning: value, ..self },
            ToggleField::UiContextMenuEnabled => UiDraft { ui_context_menu_enabled: value, ..self },
            ToggleField::UiXdgKeepOnFocusLoss => UiDraft { ui_xdg_keep_on_focus_loss: value, ..self },
            ToggleField::UiShowStatusBoardBadge => UiDraft { ui_show_status_board_badge: value, ..self },
            ToggleField::UiShowStatusPageBadge => UiDraft { ui_show_status_page_badge: value, ..self },
            ToggleField::UiShowPageBadgeWithStatusBar => UiDraft { ui_show_page_badge_with_status_bar: value, ..self },
            _ => self,
        }
    }

    fn set_toggle(&mut self, field: ToggleField, value: bool)
        ensures
            *final(self) == old(self).with_toggle(field, value),
    {
        match field {
            ToggleField::UiShowStatusBar => self.ui_show_status_bar = value,
            ToggleField::UiShowFrozenBadge => self.ui_show_frozen_badge = value,
            ToggleField::UiShowCapabilitiesWarning => self.ui_show_capabilities_warning = value,
            ToggleField::UiContextMenuEnabled => self.ui_context_menu_enabled = value,
            ToggleField::UiXdgKeepOnFocusLoss => self.ui_xdg_keep_on_focus_loss = value,
            ToggleField::UiShowStatusBoardBadge => self.ui_show_status_board_badge = value,
            ToggleField::UiShowStatusPageBadge => self.ui_show_status_page_badge = value,
            ToggleField::UiShowPageBadgeWithStatusBar => self.ui_show_page_badge_with_status_bar = value,
            _ => {},
        }
    }
}

impl HelpDraft {
    /// This section with one toggle field set; other fields keep their values.
    pub open spec fn with_toggle(self, field: ToggleField, value: bool) -> HelpDraft {
        match field {
            ToggleField::UiHelpOverlayContextFilter => HelpDraft { help_context_filter: value, ..self },
            _ => self,
        }
    }

    fn set_toggle(&mut self, field: ToggleField, value: bool)
        ensures
            *final(self) == old(self).with_toggle(field, value),
    {
        match field {
            ToggleField::UiHelpOverlayContextFilter => self.help_context_filter = value,
            _ => {},
        }
    }
}

impl ToolbarDraft {
    /// This section with one toggle field set; other fields keep their values.
    pub open spec fn with_toggle(self, field: ToggleField, value: bool) -> ToolbarDraft {
        match field {
            ToggleField::UiToolbarTopPinned => ToolbarDraft { ui_toolbar_top_pinned: value, ..self },
            ToggleField::UiToolbarSidePinned => ToolbarDraft { ui_toolbar_side_pinned: value, ..self },
            ToggleField::UiToolbarUseIcons => ToolbarDraft { ui_toolbar_use_icons: value, ..self },
            ToggleField::UiToolbarShowMoreColors => ToolbarDraft { ui_toolbar_show_more_colors: value, ..self },
            ToggleField::UiToolbarPresetToasts => ToolbarDraft { ui_toolbar_show_preset_toasts: value, ..self },
            ToggleField::UiToolbarShowDelaySliders => ToolbarDraft { ui_toolbar_show_delay_sliders: value, ..self },
            ToggleField::UiToolbarShowMarkerOpacitySection => ToolbarDraft { ui_toolbar_show_marker_opacity_section: value, ..self },
            ToggleField::UiToolbarShowToolPreview => ToolbarDraft { ui_toolbar_show_tool_preview: value, ..self },
            ToggleField::UiToolbarForceInline => ToolbarDraft { ui_toolbar_force_inline: value, ..self },
            _ => self,
        }
    }

    fn set_toggle(&mut self, field: ToggleField, value: bool)
        ensures
            *final(self) == old(self).with_toggle(field, value),
    {
        match field {
            ToggleField::UiToolbarTopPinned => self.ui_toolbar_top_pinned = value,
            ToggleField::UiToolbarSidePinned => self.ui_toolbar_side_pinned = value,
            ToggleField::UiToolbarUseIcons => self.ui_toolbar_use_icons = value,
            ToggleField::UiToolbarShowMoreColors => self.ui_toolbar_show_more_colors = value,
            ToggleField::UiToolbarPresetToasts => self.ui_toolbar_show_preset_toasts = value,
            ToggleField::UiToolbarShowDelaySliders => self.ui_toolbar_show_delay_sliders = value,
            ToggleField::UiToolbarShowMarkerOpacitySection => self.ui_toolbar_show_marker_opacity_section = value,
            ToggleField::UiToolbarShowToolPreview => self.ui_toolbar_show_tool_preview = value,
            ToggleField::UiToolbarForceInline => self.ui_toolbar_force_inline = value,
            _ => {},
        }
    }
}

impl ToolbarSectionsDraft {
    /// This section with one toggle field set; other fields keep their values.
    pub open spec fn with_toggle(self, field: ToggleField, value: bool) -> ToolbarSectionsDraft {
        match field {
            ToggleField::UiToolbarShowPresets => ToolbarSectionsDraft { ui_toolbar_show_presets: value, ..self },
            ToggleField::UiToolbarShowActionsSection => ToolbarSectionsDraft { ui_toolbar_show_actions_section: value, ..self },
            ToggleField::UiToolbarShowActionsAdvanced => ToolbarSectionsDraft { ui_toolbar_show_actions_advanced: value, ..self },
            ToggleField::UiToolbarShowZoomActions => ToolbarSectionsDraft { ui_toolbar_show_zoom_actions: value, ..self },
            ToggleField::UiToolbarShowPagesSection => ToolbarSectionsDraft { ui_toolbar_show_pages_section: value, ..self },
            ToggleField::UiToolbarShowBoardsSection => ToolbarSectionsDraft { ui_toolbar_show_boards_section: value, ..self },
            ToggleField::UiToolbarShowStepSection => ToolbarSectionsDraft { ui_toolbar_show_step_section: value, ..self },
            ToggleField::UiToolbarShowTextControls => ToolbarSectionsDraft { ui_toolbar_show_text_controls: value, ..self },
            ToggleField::UiToolbarShowSettingsSection => ToolbarSectionsDraft { ui_toolbar_show_settings_section: value, ..self },
            _ => self,
        }
    }

    fn set_toggle(&mut self, field: ToggleField, value: bool)
        ensures
            *final(self) == old(self).with_toggle(field, value),
    {
        match field {
            ToggleField::UiToolbarShowPresets => self.ui_toolbar_show_presets = value,
            ToggleField::UiToolbarShowActionsSection => self.ui_toolbar_show_actions_section = value,
            ToggleField::UiToolbarShowActionsAdvanced => self.ui_toolbar_show_actions_advanced = value,
            ToggleField::UiToolbarShowZoomActions => self.ui_toolbar_show_zoom_actions = value,
            ToggleField::UiToolbarShowPagesSection => self.ui_toolbar_show_pages_section = value,
            ToggleField::UiToolbarShowBoardsSection => self.ui_toolbar_show_boards_section = value,
            ToggleField::UiToolbarShowStepSection => self.ui_toolbar_show_step_section = value,
            ToggleField::UiToolbarShowTextControls => self.ui_toolbar_show_text_controls = value,
            ToggleField::UiToolbarShowSettingsSection => self.ui_toolbar_show_settings_section = value,
            _ => {},
        }
    }
}

impl ClickHighlightDraft {
    /// This section with one toggle field set; other fields keep their values.
    pub open spec fn with_toggle(self, field: ToggleField, value: bool) -> ClickHighlightDraft {
        match field {
            ToggleField::UiClickHighlightEnabled => ClickHighlightDraft { click_highlight_enabled: value, ..self },
            ToggleField::UiClickHighlightShowOnHighlightTool => ClickHighlightDraft { click_highlight_show_on_highlight_tool: value, ..self },
            ToggleField::UiClickHighlightUsePenColor => ClickHighlightDraft { click_highlight_use_pen_color: value, ..self },
            _ => self,
        }
    }

    fn set_toggle(&mut self, field: ToggleField, value: bool)
        ensures
            *final(self) == old(self).with_toggle(field, value),
    {
        match field {
            ToggleField::UiClickHighlightEnabled => self.click_highlight_enabled = value,
            ToggleField::UiClickHighlightShowOnHighlightTool => self.click_highlight_show_on_highlight_tool = value,
            ToggleField::UiClickHighlightUsePenColor => self.click_highlight_use_pen_color = value,
            _ => {},
        }
    }
}

impl PresenterDraft {
    /// This section with one toggle field set; other fields keep their values.
    pub open spec fn with_toggle(self, field: ToggleField, value: bool) -> PresenterDraft {
        match field {
            ToggleField::PresenterHideStatusBar => PresenterDraft { presenter_hide_status_bar: value, ..self },
            ToggleField::PresenterHideToolbars => PresenterDraft { presenter_hide_toolbars: value, ..self },
            ToggleField::PresenterHideToolPreview => PresenterDraft { presenter_hide_tool_preview: value, ..self },
            ToggleField::PresenterCloseHelpOverlay => PresenterDraft { presenter_close_help_overlay: value, ..self },
            ToggleField::PresenterEnableClickHighlight => PresenterDraft { presenter_enable_click_highlight: value, ..self },
            ToggleField::PresenterShowToast => PresenterDraft { presenter_show_toast: value, ..self },
            _ => self,
        }
    }

    fn set_toggle(&mut self, field: ToggleField, value: bool)
        ensures
            *final(self) == old(self).with_toggle(field, value),
    {
        match field {
            ToggleField::PresenterHideStatusBar => self.presenter_hide_status_bar = value,
            ToggleField::PresenterHideToolbars => self.presenter_hide_toolbars = value,
            ToggleField::PresenterHideToolPreview => self.presenter_hide_tool_preview = value,
            ToggleField::PresenterCloseHelpOverlay => self.presenter_close_help_overlay = value,
            ToggleField::PresenterEnableClickHighlight => self.presenter_enable_click_highlight = value,
            ToggleField::PresenterShowToast => self.presenter_show_toast = value,
            _ => {},
        }
    }
}

impl BoardsDraft {
    /// This section with one toggle field set; other fields keep their values.
    pub open spec fn with_toggle(self, field: ToggleField, value: bool) -> BoardsDraft {
        match field {
            ToggleField::BoardsAutoCreate => BoardsDraft { auto_create: value, ..self },
            ToggleField::BoardsShowBadge => BoardsDraft { show_board_badge: value, ..self },
            ToggleField::BoardsPersistCustomizations => BoardsDraft { persist_customizations: value, ..self },
            _ => self,
        }
    }

    fn set_toggle(&mut self, field: ToggleField, value: bool)
        ensures
            *final(self) == old(self).with_toggle(field, value),
    {
        match field {
            ToggleField::BoardsAutoCreate => self.auto_create = value,
            ToggleField::BoardsShowBadge => self.show_board_badge = value,
            ToggleField::BoardsPersistCustomizations => self.persist_customizations = value,
            _ => {},
        }
    }
}

impl CaptureDraft {
    /// This section with one toggle field set; other fields keep their values.
    pub open spec fn with_toggle(self, field: ToggleField, value: bool) -> CaptureDraft {
        match field {
            ToggleField::CaptureEnabled => CaptureDraft { capture_enabled: value, ..self },
            ToggleField::CaptureCopyToClipboard => CaptureDraft { capture_copy_to_clipboard: value, ..self },
            ToggleField::CaptureExitAfter => CaptureDraft { capture_exit_after: value, ..self },
            _ => self,
        }
    }

    fn set_toggle(&mut self, field: ToggleField, value: bool)
        ensures
            *final(self) == old(self).with_toggle(field, value),
    {
        match field {
            ToggleField::CaptureEnabled => self.capture_enabled = value,
            ToggleField::CaptureCopyToClipboard => self.capture_copy_to_clipboard = value,
            ToggleField::CaptureExitAfter => self.capture_exit_after = value,
            _ => {},
        }
    }
}

impl SessionDraft {
    /// This section with one toggle field set; other fields keep their values.
    pub open spec fn with_toggle(self, field: ToggleField, value: bool) -> SessionDraft {
        match field {
            ToggleField::SessionPersistTransparent => SessionDraft { session_persist_transparent: value, ..self },
            ToggleField::SessionPersistWhiteboard => SessionDraft { session_persist_whiteboard: value, ..self },
            ToggleField::SessionPersistBlackboard => SessionDraft { session_persist_blackboard: value, ..self },
            ToggleField::SessionPersistHistory => SessionDraft { session_persist_history: value, ..self },
            ToggleField::SessionRestoreToolState => SessionDraft { session_restore_tool_state: value, ..self },
            ToggleField::SessionPerOutput => SessionDraft { session_per_output: value, ..self },
            ToggleField::SessionAutosaveEnabled => SessionDraft { session_autosave_enabled: value, ..self },
            _ => self,
        }
    }

    fn set_toggle(&mut self, field: ToggleField, value: bool)
        ensures
            *final(self) == old(self).with_toggle(field, value),
    {
        match field {
            ToggleField::SessionPersistTransparent => self.session_persist_transparent = value,
            ToggleField::SessionPersistWhiteboard => self.session_persist_whiteboard = value,
            ToggleField::SessionPersistBlackboard => self.session_persist_blackboard = value,
            ToggleField::SessionPersistHistory => self.session_persist_history = value,
            ToggleField::SessionRestoreToolState => self.session_restore_tool_state = value,
            ToggleField::SessionPerOutput => self.session_per_output = value,
            ToggleField::SessionAutosaveEnabled => self.session_autosave_enabled = value,
            _ => {},
        }
    }
}

impl HistoryDraft {
    /// This section with one toggle field set; other fields keep their values.
    pub open spec fn with_toggle(self, field: ToggleField, value: bool) -> HistoryDraft {
        match field {
            ToggleField::HistoryCustomSectionEnabled => HistoryDraft { history_custom_section_enabled: value, ..self },
            _ => self,
        }
    }

    fn set_toggle(&mut self, field: ToggleField, value: bool)
        ensures
            *final(self) == old(self).with_toggle(field, value),
    {
        match field {
            ToggleField::HistoryCustomSectionEnabled => self.history_custom_section_enabled = value,
            _ => {},
        }
    }
}

impl ArrowDraft {
    /// This section with one toggle field set; other fields keep their values.
    pub open spec fn with_toggle(self, field: ToggleField, value: bool) -> ArrowDraft {
        match field {
            ToggleField::ArrowHeadAtEnd => ArrowDraft { arrow_head_at_end: value, ..self },
            _ => self,
        }
    }

    fn set_toggle(&mut self, field: ToggleField, value: bool)
        ensures
            *final(self) == old(self).with_toggle(field, value),
    {
        match field {
            ToggleField::ArrowHeadAtEnd => self.arrow_head_at_end = value,
            _ => {},
        }
    }
}

impl DrawingDraft {
    /// This section with one text field set; other fields keep their values.
    pub open spec fn with_text(self, field: TextField, value: String) -> DrawingDraft {
        match field {
            TextField::DrawingColorName => DrawingDraft {
                drawing_color: ColorInput { selected_named: spec_named_color_for(value@), name: value, ..self.drawing_color },
                ..self
            },
            TextField::DrawingThickness => DrawingDraft { drawing_default_thickness: value, ..self },
            TextField::DrawingEraserSize => DrawingDraft { drawing_default_eraser_size: value, ..self },
            TextField::DrawingFontSize => DrawingDraft { drawing_default_font_size: value, ..self },
            TextField::DrawingMarkerOpacity => DrawingDraft { drawing_marker_opacity: value, ..self },
            TextField::DrawingFontFamily => DrawingDraft { drawing_font_family: value, ..self },
            TextField::DrawingFontWeight => DrawingDraft { drawing_font_weight: value, drawing_font_weight_option: FontWeightOption::Custom, ..self },
            TextField::DrawingFontStyle => DrawingDraft { drawing_font_style: value, drawing_font_style_option: FontStyleOption::Custom, ..self },
            TextField::DrawingHitTestTolerance => DrawingDraft { drawing_hit_test_tolerance: value, ..self },
            TextField::DrawingHitTestThreshold => DrawingDraft { drawing_hit_test_linear_threshold: value, ..self },
            TextField::DrawingUndoStackLimit => DrawingDraft { drawing_undo_stack_limit: value, ..self },
            _ => self,
        }
    }

    fn set_text(&mut self, field: TextField, value: String)
        ensures
            *final(self) == old(self).with_text(field, value),
    {
        match field {
            TextField::DrawingColorName => self.drawing_color.set_name(value),
            TextField::DrawingThickness => self.drawing_default_thickness = value,
            TextField::DrawingEraserSize => self.drawing_default_eraser_size = value,
            TextField::DrawingFontSize => self.drawing_default_font_size = value,
            TextField::DrawingMarkerOpacity => self.drawing_marker_opacity = value,
            TextField::DrawingFontFamily => self.drawing_font_family = value,
            TextField::DrawingFontWeight => {
                self.drawing_font_weight = value;
                self.drawing_font_weight_option = FontWeightOption::Custom;
            },
            TextField::DrawingFontStyle => {
                self.drawing_font_style = value;
                self.drawing_font_style_option = FontStyleOption::Custom;
            },
            TextField::DrawingHitTestTolerance => self.drawing_hit_test_tolerance = value,
            TextField::DrawingHitTestThreshold => self.drawing_hit_test_linear_threshold = value,
            TextField::DrawingUndoStackLimit => self.drawing_undo_stack_limit = value,
            _ => {},
        }
    }
}

impl ArrowDraft {
    /// This section with one text field set; other fields keep their values.
    pub open spec fn with_text(self, field: TextField, value: String) -> ArrowDraft {
        match field {
            TextField::ArrowLength => ArrowDraft { arrow_length: value, ..self },
            TextField::ArrowAngle => ArrowDraft { arrow_angle: value, ..self },
            _ => self,
        }
    }

    fn set_text(&mut self, field: TextField, value: String)
        ensures
            *final(self) == old(self).with_text(field, value),
    {
        match field {
            TextField::ArrowLength => self.arrow_length = value,
            TextField::ArrowAngle => self.arrow_angle = value,
            _ => {},
        }
    }
}

impl PerformanceDraft {
    /// This section with one text field set; other fields keep their values.
    pub open spec fn with_text(self, field: TextField, value: String) -> PerformanceDraft {
        match field {
            TextField::PerformanceMaxFpsNoVsync => PerformanceDraft { performance_max_fps_no_vsync: value, ..self },
            TextField::PerformanceUiAnimationFps => PerformanceDraft { performance_ui_animation_fps: value, ..self },
            _ => self,
        }
    }

    fn set_text(&mut self, field: TextField, value: String)
        ensures
            *final(self) == old(self).with_text(field, value),
    {
        match field {
            TextField::PerformanceMaxFpsNoVsync => self.performance_max_fps_no_vsync = value,
            TextField::PerformanceUiAnimationFps => self.performance_ui_animation_fps = value,
            _ => {},
        }
    }
}

impl HistoryDraft {
    /// This section with one text field set; other fields keep their values.
    pub open spec fn with_text(self, field: TextField, value: String) -> HistoryDraft {
        match field {
            TextField::HistoryUndoAllDelayMs => HistoryDraft { history_undo_all_delay_ms: value, ..self },
            TextField::HistoryRedoAllDelayMs => HistoryDraft { history_redo_all_delay_ms: value, ..self },
            TextField::HistoryCustomUndoDelayMs => HistoryDraft { history_custom_undo_delay_ms: value, ..self },
            TextField::HistoryCustomRedoDelayMs => HistoryDraft { history_custom_redo_delay_ms: value, ..self },
            TextField::HistoryCustomUndoSteps => HistoryDraft { history_custom_undo_steps: value, ..self },
            TextField::HistoryCustomRedoSteps => HistoryDraft { history_custom_redo_steps: value, ..self },
            _ => self,
        }
    }

    fn set_text(&mut self, field: TextField, value: String)
        ensures
            *final(self) == old(self).with_text(field, value),
    {
        match field {
            TextField::HistoryUndoAllDelayMs => self.history_undo_all_delay_ms = value,
            TextField::HistoryRedoAllDelayMs => self.history_redo_all_delay_ms = value,
            TextField::HistoryCustomUndoDelayMs => self.history_custom_undo_delay_ms = value,
            TextField::HistoryCustomRedoDelayMs => self.history_custom_redo_delay_ms = value,
            TextField::HistoryCustomUndoSteps => self.history_custom_undo_steps = value,
            TextField::HistoryCustomRedoSteps => self.history_custom_redo_steps = value,
            _ => {},
        }
    }
}

impl UiDraft {
    /// This section with one text field set; other fields keep their values.
    pub open spec fn with_text(self, field: TextField, value: String) -> UiDraft {
        match field {
            TextField::UiPreferredOutput => UiDraft { ui_preferred_output: value, ..self },
            TextField::UiCommandPaletteToastDurationMs => UiDraft { ui_command_palette_toast_duration_ms: value, ..self },
            _ => self,
        }
    }

    fn set_text(&mut self, field: TextField, value: String)
        ensures
            *final(self) == old(self).with_text(field, value),
    {
        match field {
            TextField::UiPreferredOutput => self.ui_preferred_output = value,
            TextField::UiCommandPaletteToastDurationMs => self.ui_command_palette_toast_duration_ms = value,
            _ => {},
        }
    }
}

impl StatusDraft {
    /// This section with one text field set; other fields keep their values.
    pub open spec fn with_text(self, field: TextField, value: String) -> StatusDraft {
        match field {
            TextField::StatusFontSize => StatusDraft { status_font_size: value, ..self },
            TextField::StatusPadding => StatusDraft { status_padding: value, ..self },
            TextField::StatusDotRadius => StatusDraft { status_dot_radius: value, ..self },
            _ => self,
        }
    }

    fn set_text(&mut self, field: TextField, value: String)
        ensures
            *final(self) == old(self).with_text(field, value),
    {
        match field {
            TextField::StatusFontSize => self.status_font_size = value,
            TextField::StatusPadding => self.status_padding = value,
            TextField::StatusDotRadius => self.status_dot_radius = value,
            _ => {},
        }
    }
}

impl ClickHighlightDraft {
    /// This section with one text field set; other fields keep their values.
    pub open spec fn with_text(self, field: TextField, value: String) -> ClickHighlightDraft {
        match field {
            TextField::HighlightRadius => ClickHighlightDraft { click_highlight_radius: value, ..self },
            TextField::HighlightOutlineThickness => ClickHighlightDraft { click_highlight_outline_thickness: value, ..self },
            TextField::HighlightDurationMs => ClickHighlightDraft { click_highlight_duration_ms: value, ..self },
            _ => self,
        }
    }

    fn set_text(&mut self, field: TextField, value: String)
        ensures
            *final(self) == old(self).with_text(field, value),
    {
        match field {
            TextField::HighlightRadius => self.click_highlight_radius = value,
            TextField::HighlightOutlineThickness => self.click_highlight_outline_thickness = value,
            TextField::HighlightDurationMs => self.click_highlight_duration_ms = value,
            _ => {},
        }
    }
}

impl HelpDraft {
    /// This section with one text field set; other fields keep their values.
    pub open spec fn with_text(self, field: TextField, value: String) -> HelpDraft {
        match field {
            TextField::HelpFontFamily => HelpDraft { help_font_family: value, ..self },
            TextField::HelpFontSize => HelpDraft { help_font_size: value, ..self },
            TextField::HelpLineHeight => HelpDraft { help_line_height: value, ..self },
            TextField::HelpPadding => HelpDraft { help_padding: value, ..self },
            TextField::HelpBorderWidth => HelpDraft { help_border_width: value, ..self },
            _ => self,
        }
    }

    fn set_text(&mut self, field: TextField, value: String)
        ensures
            *final(self) == old(self).with_text(field, value),
    {
        match field {
            TextField::HelpFontFamily => self.help_font_family = value,
            TextField::HelpFontSize => self.help_font_size = value,
            TextField::HelpLineHeight => self.help_line_height = value,
            TextField::HelpPadding => self.help_padding = value,
            TextField::HelpBorderWidth => self.help_border_width = value,
            _ => {},
        }
    }
}

impl CaptureDraft {
    /// This section with one text field set; other fields keep their values.
    pub open spec fn with_text(self, field: TextField, value: String) -> CaptureDraft {
        match field {
            TextField::CaptureSaveDirectory => CaptureDraft { capture_save_directory: value, ..self },
            TextField::CaptureFilename => CaptureDraft { capture_filename_template: value, ..self },
            TextField::CaptureFormat => CaptureDraft { capture_format: value, ..self },
            _ => self,
        }
    }

    fn set_text(&mut self, field: TextField, value: String)
        ensures
            *final(self) == old(self).with_text(field, value),
    {
        match field {
            TextField::CaptureSaveDirectory => self.capture_save_directory = value,
            TextField::CaptureFilename => self.capture_filename_template = value,
            TextField::CaptureFormat => self.capture_format = value,
            _ => {},
        }
    }
}

impl ToolbarDraft {
    /// This section with one text field set; other fields keep their values.
    pub open spec fn with_text(self, field: TextField, value: String) -> ToolbarDraft {
        match field {
            TextField::ToolbarTopOffset => ToolbarDraft { ui_toolbar_top_offset: value, ..self },
            TextField::ToolbarTopOffsetY => ToolbarDraft { ui_toolbar_top_offset_y: value, ..self },
            TextField::ToolbarSideOffset => ToolbarDraft { ui_toolbar_side_offset: value, ..self },
            TextField::ToolbarSideOffsetX => ToolbarDraft { ui_toolbar_side_offset_x: value, ..self },
            _ => self,
        }
    }

    fn set_text(&mut self, field: TextField, value: String)
        ensures
            *final(self) == old(self).with_text(field, value),
    {
        match field {
            TextField::ToolbarTopOffset => self.ui_toolbar_top_offset = value,
            TextField::ToolbarTopOffsetY => self.ui_toolbar_top_offset_y = value,
            TextField::ToolbarSideOffset => self.ui_toolbar_side_offset = value,
            TextField::ToolbarSideOffsetX => self.ui_toolbar_side_offset_x = value,
            _ => {},
        }
    }
}

impl BoardsDraft {
    /// This section with one text field set; other fields keep their values.
    pub open spec fn with_text(self, field: TextField, value: String) -> BoardsDraft {
        match field {
            TextField::BoardsMaxCount => BoardsDraft { max_count: value, ..self },
            _ => self,
        }
    }

    fn set_text(&mut self, field: TextField, value: String)
        ensures
            *final(self) == old(self).with_text(field, value),
    {
        match field {
            TextField::BoardsMaxCount => self.max_count = value,
            _ => {},
        }
    }
}

impl SessionDraft {
    /// This section with one text field set; other fields keep their values.
    pub open spec fn with_text(self, field: TextField, value: String) -> SessionDraft {
        match field {
            TextField::SessionCustomDirectory => SessionDraft { session_custom_directory: value, ..self },
            TextField::SessionMaxShapesPerFrame => SessionDraft { session_max_shapes_per_frame: value, ..self },
            TextField::SessionMaxFileSizeMb => SessionDraft { session_max_file_size_mb: value, ..self },
            TextField::SessionAutoCompressThresholdKb => SessionDraft { session_auto_compress_threshold_kb: value, ..self },
            TextField::SessionMaxPersistedUndoDepth => SessionDraft { session_max_persisted_undo_depth: value, ..self },
            TextField::SessionBackupRetention => SessionDraft { session_backup_retention: value, ..self },
            TextField::SessionAutosaveIdleMs => SessionDraft { session_autosave_idle_ms: value, ..self },
            TextField::SessionAutosaveIntervalMs => SessionDraft { session_autosave_interval_ms: value, ..self },
            TextField::SessionAutosaveFailureBackoffMs => SessionDraft { session_autosave_failure_backoff_ms: value, ..self },
            _ => self,
        }
    }

    fn set_text(&mut self, field: TextField, value: String)
        ensures
            *final(self) == old(self).with_text(field, value),
    {
        match field {
            TextField::SessionCustomDirectory => self.session_custom_directory = value,
            TextField::SessionMaxShapesPerFrame => self.session_max_shapes_per_frame = value,
            TextField::SessionMaxFileSizeMb => self.session_max_file_size_mb = value,
            TextField::SessionAutoCompressThresholdKb => self.session_auto_compress_threshold_kb = value,
            TextField::SessionMaxPersistedUndoDepth => self.session_max_persisted_undo_depth = value,
            TextField::SessionBackupRetention => self.session_backup_retention = value,
            TextField::SessionAutosaveIdleMs => self.session_autosave_idle_ms = value,
            TextField::SessionAutosaveIntervalMs => self.session_autosave_interval_ms = value,
            TextField::SessionAutosaveFailureBackoffMs => self.session_autosave_failure_backoff_ms = value,
            _ => {},
        }
    }
}

impl ConfigDraft {
    /// The current value of a toggle field.
    pub open spec fn toggle(self, field: ToggleField) -> bool {
        match field {
            ToggleField::DrawingTextBackground => self.drawing.drawing_text_background_enabled,
            ToggleField::DrawingFillEnabled => self.drawing.drawing_default_fill_enabled,
            ToggleField::PerformanceVsync => self.performance.performance_enable_vsync,
            ToggleField::UiShowStatusBar => self.ui.ui_show_status_bar,
            ToggleField::UiShowFrozenBadge => self.ui.ui_show_frozen_badge,
            ToggleField::UiShowCapabilitiesWarning => self.ui.ui_show_capabilities_warning,
            ToggleField::UiHelpOverlayContextFilter => self.help.help_context_filter,
            ToggleField::UiContextMenuEnabled => self.ui.ui_context_menu_enabled,
            ToggleField::UiXdgKeepOnFocusLoss => self.ui.ui_xdg_keep_on_focus_loss,
            ToggleField::UiToolbarTopPinned => self.toolbar.ui_toolbar_top_pinned,
            ToggleField::UiToolbarSidePinned => self.toolbar.ui_toolbar_side_pinned,
            ToggleField::UiToolbarUseIcons => self.toolbar.ui_toolbar_use_icons,
            ToggleField::UiToolbarShowMoreColors => self.toolbar.ui_toolbar_show_more_colors,
            ToggleField::UiToolbarPresetToasts => self.toolbar.ui_toolbar_show_preset_toasts,
            ToggleField::UiToolbarShowPresets => self.toolbar_sections.ui_toolbar_show_presets,
            ToggleField::UiToolbarShowActionsSection => self.toolbar_sections.ui_toolbar_show_actions_section,
            ToggleField::UiToolbarShowActionsAdvanced => self.toolbar_sections.ui_toolbar_show_actions_advanced,
            ToggleField::UiToolbarShowZoomActions => self.toolbar_sections.ui_toolbar_show_zoom_actions,
            ToggleField::UiToolbarShowPagesSection => self.toolbar_sections.ui_toolbar_show_pages_section,
            ToggleField::UiToolbarShowBoardsSection => self.toolbar_sections.ui_toolbar_show_boards_section,
            ToggleField::UiToolbarShowStepSection => self.toolbar_sections.ui_toolbar_show_step_section,
            ToggleField::UiToolbarShowTextControls => self.toolbar_sections.ui_toolbar_show_text_controls,
            ToggleField::UiToolbarShowSettingsSection => self.toolbar_sections.ui_toolbar_show_settings_section,
            ToggleField::UiToolbarShowDelaySliders => self.toolbar.ui_toolbar_show_delay_sliders,
            ToggleField::UiToolbarShowMarkerOpacitySection => self.toolbar.ui_toolbar_show_marker_opacity_section,
            ToggleField::UiToolbarShowToolPreview => self.toolbar.ui_toolbar_show_tool_preview,
            ToggleField::UiToolbarForceInline => self.toolbar.ui_toolbar_force_inline,
            ToggleField::UiClickHighlightEnabled => self.click_highlight.click_highlight_enabled,
            ToggleField::UiClickHighlightShowOnHighlightTool => self.click_highlight.click_highlight_show_on_highlight_tool,
            ToggleField::UiClickHighlightUsePenColor => self.click_highlight.click_highlight_use_pen_color,
            ToggleField::UiShowStatusBoardBadge => self.ui.ui_show_status_board_badge,
            ToggleField::UiShowStatusPageBadge => self.ui.ui_show_status_page_badge,
            ToggleField::UiShowPageBadgeWithStatusBar => self.ui.ui_show_page_badge_with_status_bar,
            ToggleField::PresenterHideStatusBar => self.presenter.presenter_hide_status_bar,
            ToggleField::PresenterHideToolbars => self.presenter.presenter_hide_toolbars,
            ToggleField::PresenterHideToolPreview => self.presenter.presenter_hide_tool_preview,
            ToggleField::PresenterCloseHelpOverlay => self.presenter.presenter_close_help_overlay,
            ToggleField::PresenterEnableClickHighlight => self.presenter.presenter_enable_click_highlight,
            ToggleField::PresenterShowToast => self.presenter.presenter_show_toast,
            ToggleField::BoardsAutoCreate => self.boards.auto_create,
            ToggleField::BoardsShowBadge => self.boards.show_board_badge,
            ToggleField::BoardsPersistCustomizations => self.boards.persist_customizations,
            ToggleField::CaptureEnabled => self.capture.capture_enabled,
            ToggleField::CaptureCopyToClipboard => self.capture.capture_copy_to_clipboard,
            ToggleField::CaptureExitAfter => self.capture.capture_exit_after,
            ToggleField::SessionPersistTransparent => self.session.session_persist_transparent,
            ToggleField::SessionPersistWhiteboard => self.session.session_persist_whiteboard,
            ToggleField::SessionPersistBlackboard => self.session.session_persist_blackboard,
            ToggleField::SessionPersistHistory => self.session.session_persist_history,
            ToggleField::SessionRestoreToolState => self.session.session_restore_tool_state,
            ToggleField::SessionPerOutput => self.session.session_per_output,
            ToggleField::SessionAutosaveEnabled => self.session.session_autosave_enabled,
            ToggleField::HistoryCustomSectionEnabled => self.history.history_custom_section_enabled,
            ToggleField::ArrowHeadAtEnd => self.arrow.arrow_head_at_end,
        }
    }

    /// The draft with one toggle set.
    pub open spec fn with_toggle(self, field: ToggleField, value: bool) -> ConfigDraft {
        match field {
            ToggleField::DrawingTextBackground | ToggleField::DrawingFillEnabled => ConfigDraft { drawing: self.drawing.with_toggle(field, value), ..self },
            ToggleField::PerformanceVsync => ConfigDraft { performance: self.performance.with_toggle(field, value), ..self },
            ToggleField::UiShowStatusBar | ToggleField::UiShowFrozenBadge | ToggleField::UiShowCapabilitiesWarning | ToggleField::UiContextMenuEnabled | ToggleField::UiXdgKeepOnFocusLoss | ToggleField::UiShowStatusBoardBadge | ToggleField::UiShowStatusPageBadge | ToggleField::UiShowPageBadgeWithStatusBar => ConfigDraft { ui: self.ui.with_toggle(field, value), ..self },
            ToggleField::UiHelpOverlayContextFilter => ConfigDraft { help: self.help.with_toggle(field, value), ..self },
            ToggleField::UiToolbarTopPinned | ToggleField::UiToolbarSidePinned | ToggleField::UiToolbarUseIcons | ToggleField::UiToolbarShowMoreColors | ToggleField::UiToolbarPresetToasts | ToggleField::UiToolbarShowDelaySliders | ToggleField::UiToolbarShowMarkerOpacitySection | ToggleField::UiToolbarShowToolPreview | ToggleField::UiToolbarForceInline => ConfigDraft { toolbar: self.toolbar.with_toggle(field, value), ..self },
            ToggleField::UiToolbarShowPresets | ToggleField::UiToolbarShowActionsSection | ToggleField::UiToolbarShowActionsAdvanced | ToggleField::UiToolbarShowZoomActions | ToggleField::UiToolbarShowPagesSection | ToggleField::UiToolbarShowBoardsSection | ToggleField::UiToolbarShowStepSection | ToggleField::UiToolbarShowTextControls | ToggleField::UiToolbarShowSettingsSection => ConfigDraft { toolbar_sections: self.toolbar_sections.with_toggle(field, value), ..self },
            ToggleField::UiClickHighlightEnabled | ToggleField::UiClickHighlightShowOnHighlightTool | ToggleField::UiClickHighlightUsePenColor => ConfigDraft { click_highlight: self.click_highlight.with_toggle(field, value), ..self },
            ToggleField::PresenterHideStatusBar | ToggleField::PresenterHideToolbars | ToggleField::PresenterHideToolPreview | ToggleField::PresenterCloseHelpOverlay | ToggleField::PresenterEnableClickHighlight | ToggleField::PresenterShowToast => ConfigDraft { presenter: self.presenter.with_toggle(field, value), ..self },
            ToggleField::BoardsAutoCreate | ToggleField::BoardsShowBadge | ToggleField::BoardsPersistCustomizations => ConfigDraft { boards: self.boards.with_toggle(field, value), ..self },
            ToggleField::CaptureEnabled | ToggleField::CaptureCopyToClipboard | ToggleField::CaptureExitAfter => ConfigDraft { capture: self.capture.with_toggle(field, value), ..self },
            ToggleField::SessionPersistTransparent | ToggleField::SessionPersistWhiteboard | ToggleField::SessionPersistBlackboard | ToggleField::SessionPersistHistory | ToggleField::SessionRestoreToolState | ToggleField::SessionPerOutput | ToggleField::SessionAutosaveEnabled => ConfigDraft { session: self.session.with_toggle(field, value), ..self },
            ToggleField::HistoryCustomSectionEnabled => ConfigDraft { history: self.history.with_toggle(field, value), ..self },
            ToggleField::ArrowHeadAtEnd => ConfigDraft { arrow: self.arrow.with_toggle(field, value), ..self },
        }
    }

    /// Sets one toggle; nothing else changes.
    pub fn set_toggle(&mut self, field: ToggleField, value: bool)
        ensures
            *final(self) == old(self).with_toggle(field, value),
    {
        match field {
            ToggleField::DrawingTextBackground | ToggleField::DrawingFillEnabled => self.drawing.set_toggle(field, value),
            ToggleField::PerformanceVsync => self.performance.set_toggle(field, value),
            ToggleField::UiShowStatusBar | ToggleField::UiShowFrozenBadge | ToggleField::UiShowCapabilitiesWarning | ToggleField::UiContextMenuEnabled | ToggleField::UiXdgKeepOnFocusLoss | ToggleField::UiShowStatusBoardBadge | ToggleField::UiShowStatusPageBadge | ToggleField::UiShowPageBadgeWithStatusBar => self.ui.set_toggle(field, value),
            ToggleField::UiHelpOverlayContextFilter => self.help.set_toggle(field, value),
            ToggleField::UiToolbarTopPinned | ToggleField::UiToolbarSidePinned | ToggleField::UiToolbarUseIcons | ToggleField::UiToolbarShowMoreColors | ToggleField::UiToolbarPresetToasts | ToggleField::UiToolbarShowDelaySliders | ToggleField::UiToolbarShowMarkerOpacitySection | ToggleField::UiToolbarShowToolPreview | ToggleField::UiToolbarForceInline => self.toolbar.set_toggle(field, value),
            ToggleField::UiToolbarShowPresets | ToggleField::UiToolbarShowActionsSection | ToggleField::UiToolbarShowActionsAdvanced | ToggleField::UiToolbarShowZoomActions | ToggleField::UiToolbarShowPagesSection | ToggleField::UiToolbarShowBoardsSection | ToggleField::UiToolbarShowStepSection | ToggleField::UiToolbarShowTextControls | ToggleField::UiToolbarShowSettingsSection => self.toolbar_sections.set_toggle(field, value),
            ToggleField::UiClickHighlightEnabled | ToggleField::UiClickHighlightShowOnHighlightTool | ToggleField::UiClickHighlightUsePenColor => self.click_highlight.set_toggle(field, value),
            ToggleField::PresenterHideStatusBar | ToggleField::PresenterHideToolbars | ToggleField::PresenterHideToolPreview | ToggleField::PresenterCloseHelpOverlay | ToggleField::PresenterEnableClickHighlight | ToggleField::PresenterShowToast => self.presenter.set_toggle(field, value),
            ToggleField::BoardsAutoCreate | ToggleField::BoardsShowBadge | ToggleField::BoardsPersistCustomizations => self.boards.set_toggle(field, value),
            ToggleField::CaptureEnabled | ToggleField::CaptureCopyToClipboard | ToggleField::CaptureExitAfter => self.capture.set_toggle(field, value),
            ToggleField::SessionPersistTransparent | ToggleField::SessionPersistWhiteboard | ToggleField::SessionPersistBlackboard | ToggleField::SessionPersistHistory | ToggleField::SessionRestoreToolState | ToggleField::SessionPerOutput | ToggleField::SessionAutosaveEnabled => self.session.set_toggle(field, value),
            ToggleField::HistoryCustomSectionEnabled => self.history.set_toggle(field, value),
            ToggleField::ArrowHeadAtEnd => self.arrow.set_toggle(field, value),
        }
    }

    /// The current value of a text field.
    pub open spec fn text(self, field: TextField) -> String {
        match field {
            TextField::DrawingColorName => self.drawing.drawing_color.name,
            TextField::DrawingThickness => self.drawing.drawing_default_thickness,
            TextField::DrawingEraserSize => self.drawing.drawing_default_eraser_size,
            TextField::DrawingFontSize => self.drawing.drawing_default_font_size,
            TextField::DrawingMarkerOpacity => self.drawing.drawing_marker_opacity,
            TextField::DrawingFontFamily => self.drawing.drawing_font_family,
            TextField::DrawingFontWeight => self.drawing.drawing_font_weight,
            TextField::DrawingFontStyle => self.drawing.drawing_font_style,
            TextField::DrawingHitTestTolerance => self.drawing.drawing_hit_test_tolerance,
            TextField::DrawingHitTestThreshold => self.drawing.drawing_hit_test_linear_threshold,
            TextField::DrawingUndoStackLimit => self.drawing.drawing_undo_stack_limit,
            TextField::ArrowLength => self.arrow.arrow_length,
            TextField::ArrowAngle => self.arrow.arrow_angle,
            TextField::PerformanceMaxFpsNoVsync => self.performance.performance_max_fps_no_vsync,
            TextField::PerformanceUiAnimationFps => self.performance.performance_ui_animation_fps,
            TextField::HistoryUndoAllDelayMs => self.history.history_undo_all_delay_ms,
            TextField::HistoryRedoAllDelayMs => self.history.history_redo_all_delay_ms,
            TextField::HistoryCustomUndoDelayMs => self.history.history_custom_undo_delay_ms,
            TextField::HistoryCustomRedoDelayMs => self.history.history_custom_redo_delay_ms,
            TextField::HistoryCustomUndoSteps => self.history.history_custom_undo_steps,
            TextField::HistoryCustomRedoSteps => self.history.history_custom_redo_steps,
            TextField::UiPreferredOutput => self.ui.ui_preferred_output,
            TextField::StatusFontSize => self.status.status_font_size,
            TextField::StatusPadding => self.status.status_padding,
            TextField::StatusDotRadius => self.status.status_dot_radius,
            TextField::HighlightRadius => self.click_highlight.click_highlight_radius,
            TextField::HighlightOutlineThickness => self.click_highlight.click_highlight_outline_thickness,
            TextField::HighlightDurationMs => self.click_highlight.click_highlight_duration_ms,
            TextField::HelpFontFamily => self.help.help_font_family,
            TextField::HelpFontSize => self.help.help_font_size,
            TextField::HelpLineHeight => self.help.help_line_height,
            TextField::HelpPadding => self.help.help_padding,
            TextField::HelpBorderWidth => self.help.help_border_width,
            TextField::UiCommandPaletteToastDurationMs => self.ui.ui_command_palette_toast_duration_ms,
            TextField::CaptureSaveDirectory => self.capture.capture_save_directory,
            TextField::CaptureFilename => self.capture.capture_filename_template,
            TextField::CaptureFormat => self.capture.capture_format,
            TextField::ToolbarTopOffset => self.toolbar.ui_toolbar_top_offset,
            TextField::ToolbarTopOffsetY => self.toolbar.ui_toolbar_top_offset_y,
            TextField::ToolbarSideOffset => self.toolbar.ui_toolbar_side_offset,
            TextField::ToolbarSideOffsetX => self.toolbar.ui_toolbar_side_offset_x,
            TextField::BoardsMaxCount => self.boards.max_count,
            TextField::SessionCustomDirectory => self.session.session_custom_directory,
            TextField::SessionMaxShapesPerFrame => self.session.session_max_shapes_per_frame,
            TextField::SessionMaxFileSizeMb => self.session.session_max_file_size_mb,
            TextField::SessionAutoCompressThresholdKb => self.session.session_auto_compress_threshold_kb,
            TextField::SessionMaxPersistedUndoDepth => self.session.session_max_persisted_undo_depth,
            TextField::SessionBackupRetention => self.session.session_backup_retention,
            TextField::SessionAutosaveIdleMs => self.session.session_autosave_idle_ms,
            TextField::SessionAutosaveIntervalMs => self.session.session_autosave_interval_ms,
            TextField::SessionAutosaveFailureBackoffMs => self.session.session_autosave_failure_backoff_ms,
        }
    }

    /// The draft with one text field set. A typed font weight or style also switches
    /// its option to the custom entry.
    pub open spec fn with_text(self, field: TextField, value: String) -> ConfigDraft {
        match field {
            TextField::DrawingColorName | TextField::DrawingThickness | TextField::DrawingEraserSize | TextField::DrawingFontSize | TextField::DrawingMarkerOpacity | TextField::DrawingFontFamily | TextField::DrawingFontWeight | TextField::DrawingFontStyle | TextField::DrawingHitTestTolerance | TextField::DrawingHitTestThreshold | TextField::DrawingUndoStackLimit => ConfigDraft { drawing: self.drawing.with_text(field, value), ..self },
            TextField::ArrowLength | TextField::ArrowAngle => ConfigDraft { arrow: self.arrow.with_text(field, value), ..self },
            TextField::PerformanceMaxFpsNoVsync | TextField::PerformanceUiAnimationFps => ConfigDraft { performance: self.performance.with_text(field, value), ..self },
            TextField::HistoryUndoAllDelayMs | TextField::HistoryRedoAllDelayMs | TextField::HistoryCustomUndoDelayMs | TextField::HistoryCustomRedoDelayMs | TextField::HistoryCustomUndoSteps | TextField::HistoryCustomRedoSteps => ConfigDraft { history: self.history.with_text(field, value), ..self },
            TextField::UiPreferredOutput | TextField::UiCommandPaletteToastDurationMs => ConfigDraft { ui: self.ui.with_text(field, value), ..self },
            TextField::StatusFontSize | TextField::StatusPadding | TextField::StatusDotRadius => ConfigDraft { status: self.status.with_text(field, value), ..self },
            TextField::HighlightRadius | TextField::HighlightOutlineThickness | TextField::HighlightDurationMs => ConfigDraft { click_highlight: self.click_highlight.with_text(field, value), ..self },
            TextField::HelpFontFamily | TextField::HelpFontSize | TextField::HelpLineHeight | TextField::HelpPadding | TextField::HelpBorderWidth => ConfigDraft { help: self.help.with_text(field, value), ..self },
            TextField::CaptureSaveDirectory | TextField::CaptureFilename | TextField::CaptureFormat => ConfigDraft { capture: self.capture.with_text(field, value), ..self },
            TextField::ToolbarTopOffset | TextField::ToolbarTopOffsetY | TextField::ToolbarSideOffset | TextField::ToolbarSideOffsetX => ConfigDraft { toolbar: self.toolbar.with_text(field, value), ..self },
            TextField::BoardsMaxCount => ConfigDraft { boards: self.boards.with_text(field, value), ..self },
            TextField::SessionCustomDirectory | TextField::SessionMaxShapesPerFrame | TextField::SessionMaxFileSizeMb | TextField::SessionAutoCompressThresholdKb | TextField::SessionMaxPersistedUndoDepth | TextField::SessionBackupRetention | TextField::SessionAutosaveIdleMs | TextField::SessionAutosaveIntervalMs | TextField::SessionAutosaveFailureBackoffMs => ConfigDraft { session: self.session.with_text(field, value), ..self },
        }
    }

    /// Sets one text field (see `with_text`); nothing else changes.
    pub fn set_text(&mut self, field: TextField, value: String)
        ensures
            *final(self) == old(self).with_text(field, value),
    {
        match field {
            TextField::DrawingColorName | TextField::DrawingThickness | TextField::DrawingEraserSize | TextField::DrawingFontSize | TextField::DrawingMarkerOpacity | TextField::DrawingFontFamily | TextField::DrawingFontWeight | TextField::DrawingFontStyle | TextField::DrawingHitTestTolerance | TextField::DrawingHitTestThreshold | TextField::DrawingUndoStackLimit => self.drawing.set_text(field, value),
            TextField::ArrowLength | TextField::ArrowAngle => self.arrow.set_text(field, value),
            TextField::PerformanceMaxFpsNoVsync | TextField::PerformanceUiAnimationFps => self.performance.set_text(field, value),
            TextField::HistoryUndoAllDelayMs | TextField::HistoryRedoAllDelayMs | TextField::HistoryCustomUndoDelayMs | TextField::HistoryCustomRedoDelayMs | TextField::HistoryCustomUndoSteps | TextField::HistoryCustomRedoSteps => self.history.set_text(field, value),
            TextField::UiPreferredOutput | TextField::UiCommandPaletteToastDurationMs => self.ui.set_text(field, value),
            TextField::StatusFontSize | TextField::StatusPadding | TextField::StatusDotRadius => self.status.set_text(field, value),
            TextField::HighlightRadius | TextField::HighlightOutlineThickness | TextField::HighlightDurationMs => self.click_highlight.set_text(field, value),
            TextField::HelpFontFamily | TextField::HelpFontSize | TextField::HelpLineHeight | TextField::HelpPadding | TextField::HelpBorderWidth => self.help.set_text(field, value),
            TextField::CaptureSaveDirectory | TextField::CaptureFilename | TextField::CaptureFormat => self.capture.set_text(field, value),
            TextField::ToolbarTopOffset | TextField::ToolbarTopOffsetY | TextField::ToolbarSideOffset | TextField::ToolbarSideOffsetX => self.toolbar.set_text(field, value),
            TextField::BoardsMaxCount => self.boards.set_text(field, value),
            TextField::SessionCustomDirectory | TextField::SessionMaxShapesPerFrame | TextField::SessionMaxFileSizeMb | TextField::SessionAutoCompressThresholdKb | TextField::SessionMaxPersistedUndoDepth | TextField::SessionBackupRetention | TextField::SessionAutosaveIdleMs | TextField::SessionAutosaveIntervalMs | TextField::SessionAutosaveFailureBackoffMs => self.session.set_text(field, value),
        }
    }

    /// The colour edited by a quad field.
    pub open spec fn quad(self, field: QuadField) -> ColorQuadInput {
        match field {
            QuadField::StatusBarBg => self.status.status_bar_bg_color,
            QuadField::StatusBarText => self.status.status_bar_text_color,
            QuadField::HelpBg => self.help.help_bg_color,
            QuadField::HelpBorder => self.help.help_border_color,
            QuadField::HelpText => self.help.help_text_color,
            QuadField::HighlightFill => self.click_highlight.click_highlight_fill_color,
            QuadField::HighlightOutline => self.click_highlight.click_highlight_outline_color,
        }
    }

    /// The draft with the colour of a quad field replaced.
    pub open spec fn with_quad(self, field: QuadField, color: ColorQuadInput) -> ConfigDraft {
        match field {
            QuadField::StatusBarBg => ConfigDraft { status: StatusDraft { status_bar_bg_color: color, ..self.status }, ..self },
            QuadField::StatusBarText => ConfigDraft { status: StatusDraft { status_bar_text_color: color, ..self.status }, ..self },
            QuadField::HelpBg => ConfigDraft { help: HelpDraft { help_bg_color: color, ..self.help }, ..self },
            QuadField::HelpBorder => ConfigDraft { help: HelpDraft { help_border_color: color, ..self.help }, ..self },
            QuadField::HelpText => ConfigDraft { help: HelpDraft { help_text_color: color, ..self.help }, ..self },
            QuadField::HighlightFill => ConfigDraft { click_highlight: ClickHighlightDraft { click_highlight_fill_color: color, ..self.click_highlight }, ..self },
            QuadField::HighlightOutline => ConfigDraft { click_highlight: ClickHighlightDraft { click_highlight_outline_color: color, ..self.click_highlight }, ..self },
        }
    }

    /// Replaces one component of a four-component colour; an index past its components
    /// changes nothing.
    pub fn set_quad(&mut self, field: QuadField, index: usize, value: String)
        ensures
            final(self).quad(field).components@ == replace_slot(old(self).quad(field).components@, index, value),
            *final(self) == old(self).with_quad(field, final(self).quad(field)),
    {
        match field {
            QuadField::StatusBarBg => self.status.status_bar_bg_color.set_component(index, value),
            QuadField::StatusBarText => self.status.status_bar_text_color.set_component(index, value),
            QuadField::HelpBg => self.help.help_bg_color.set_component(index, value),
            QuadField::HelpBorder => self.help.help_border_color.set_component(index, value),
            QuadField::HelpText => self.help.help_text_color.set_component(index, value),
            QuadField::HighlightFill => self.click_highlight.click_highlight_fill_color.set_component(index, value),
            QuadField::HighlightOutline => self.click_highlight.click_highlight_outline_color.set_component(index, value),
        }
    }

}
impl DrawingDraft {
    /// This section with the tool of one drag gesture set.
    pub open spec fn with_drag_tool(self, field: DragToolField, value: ToolOption) -> DrawingDraft {
        match field {
            DragToolField::Drag => DrawingDraft { drawing_drag_tool: value, ..self },
            DragToolField::ShiftDrag => DrawingDraft { drawing_shift_drag_tool: value, ..self },
            DragToolField::CtrlDrag => DrawingDraft { drawing_ctrl_drag_tool: value, ..self },
            DragToolField::CtrlShiftDrag => DrawingDraft { drawing_ctrl_shift_drag_tool: value, ..self },
            DragToolField::TabDrag => DrawingDraft { drawing_tab_drag_tool: value, ..self },
        }
    }

    fn set_drag_tool(&mut self, field: DragToolField, value: ToolOption)
        ensures
            *final(self) == old(self).with_drag_tool(field, value),
    {
        match field {
            DragToolField::Drag => self.drawing_drag_tool = value,
            DragToolField::ShiftDrag => self.drawing_shift_drag_tool = value,
            DragToolField::CtrlDrag => self.drawing_ctrl_drag_tool = value,
            DragToolField::CtrlShiftDrag => self.drawing_ctrl_shift_drag_tool = value,
            DragToolField::TabDrag => self.drawing_tab_drag_tool = value,
        }
    }

    fn set_rgb_component(&mut self, index: usize, value: String)
        ensures
            final(self).drawing_color.rgb@ == replace_slot(old(self).drawing_color.rgb@, index, value),
            *final(self) == (DrawingDraft {
                drawing_color: ColorInput { rgb: final(self).drawing_color.rgb, ..old(self).drawing_color },
                ..*old(self)
            }),
    {
        self.drawing_color.set_rgb_component(index, value);
    }
}

impl ToolbarSectionsDraft {
    /// These flags reset to the defaults of a toolbar layout.
    pub open spec fn with_defaults(self, d: ToolbarSectionDefaults) -> ToolbarSectionsDraft {
        ToolbarSectionsDraft {
            ui_toolbar_show_actions_section: d.show_actions_section,
            ui_toolbar_show_actions_advanced: d.show_actions_advanced,
            ui_toolbar_show_zoom_actions: d.show_zoom_actions,
            ui_toolbar_show_pages_section: d.show_pages_section,
            ui_toolbar_show_boards_section: d.show_boards_section,
            ui_toolbar_show_presets: d.show_presets,
            ui_toolbar_show_step_section: d.show_step_section,
            ui_toolbar_show_text_controls: d.show_text_controls,
            ui_toolbar_show_settings_section: d.show_settings_section,
            ..self
        }
    }

    fn apply_defaults(&mut self, d: ToolbarSectionDefaults)
        ensures
            *final(self) == old(self).with_defaults(d),
    {
        self.ui_toolbar_show_actions_section = d.show_actions_section;
        self.ui_toolbar_show_actions_advanced = d.show_actions_advanced;
        self.ui_toolbar_show_zoom_actions = d.show_zoom_actions;
        self.ui_toolbar_show_pages_section = d.show_pages_section;
        self.ui_toolbar_show_boards_section = d.show_boards_section;
        self.ui_toolbar_show_presets = d.show_presets;
        self.ui_toolbar_show_step_section = d.show_step_section;
        self.ui_toolbar_show_text_controls = d.show_text_controls;
        self.ui_toolbar_show_settings_section = d.show_settings_section;
    }
}

impl ToolbarDraft {
    fn set_layout_mode(&mut self, mode: ToolbarLayoutModeOption)
        ensures
            *final(self) == (ToolbarDraft { ui_toolbar_layout_mode: mode, ..*old(self) }),
    {
        self.ui_toolbar_layout_mode = mode;
    }
}

impl ConfigDraft {
    /// The drag tool bound to a gesture.
    pub open spec fn drag_tool(self, field: DragToolField) -> ToolOption {
        match field {
            DragToolField::Drag => self.drawing.drawing_drag_tool,
            DragToolField::ShiftDrag => self.drawing.drawing_shift_drag_tool,
            DragToolField::CtrlDrag => self.drawing.drawing_ctrl_drag_tool,
            DragToolField::CtrlShiftDrag => self.drawing.drawing_ctrl_shift_drag_tool,
            DragToolField::TabDrag => self.drawing.drawing_tab_drag_tool,
        }
    }

    /// Binds a tool to one drag gesture; nothing else changes.
    pub fn set_drag_tool(&mut self, field: DragToolField, value: ToolOption)
        ensures
            *final(self) == (ConfigDraft { drawing: old(self).drawing.with_drag_tool(field, value), ..*old(self) }),
    {
        self.drawing.set_drag_tool(field, value);
    }

    /// Replaces one component of a three-component colour; an index past its components
    /// changes nothing.
    pub fn set_triplet(&mut self, field: TripletField, index: usize, value: String)
        ensures
            final(self).drawing.drawing_color.rgb@ == replace_slot(old(self).drawing.drawing_color.rgb@, index, value),
            *final(self) == (ConfigDraft {
                drawing: DrawingDraft {
                    drawing_color: ColorInput { rgb: final(self).drawing.drawing_color.rgb, ..old(self).drawing.drawing_color },
                    ..old(self).drawing
                },
                ..*old(self)
            }),
    {
        match field {
            TripletField::DrawingColorRgb => self.drawing.set_rgb_component(index, value),
        }
    }

    /// Sets one section override of one toolbar layout; nothing else changes.
    pub fn set_toolbar_override(&mut self, mode: ToolbarLayoutModeOption, field: ToolbarOverrideField, value: OverrideOption)
        ensures
            *final(self) == (ConfigDraft {
                ui_toolbar_mode_overrides: old(self).ui_toolbar_mode_overrides.with_override(mode, field, value),
                ..*old(self)
            }),
    {
        self.ui_toolbar_mode_overrides.set(mode, field, value);
    }

    /// The draft switched to a toolbar layout, with every section flag reset to that
    /// layout's defaults.
    pub open spec fn with_layout_mode(self, mode: ToolbarLayoutModeOption) -> ConfigDraft {
        ConfigDraft {
            toolbar: ToolbarDraft { ui_toolbar_layout_mode: mode, ..self.toolbar },
            toolbar_sections: self.toolbar_sections.with_defaults(spec_section_defaults(mode)),
            ..self
        }
    }

    /// Switches the toolbar layout and resets the section flags to its defaults; nothing
    /// else changes.
    pub fn apply_toolbar_layout_mode(&mut self, mode: ToolbarLayoutModeOption)
        ensures
            *final(self) == old(self).with_layout_mode(mode),
    {
        self.toolbar.set_layout_mode(mode);
        let defaults = mode.section_defaults();
        self.toolbar_sections.apply_defaults(defaults);
    }
}


proof fn lemma_drawing_toggles(d: ConfigDraft, field: ToggleField, value: bool)
    requires
        field == ToggleField::DrawingTextBackground || field == ToggleField::DrawingFillEnabled,
    ensures
        d.with_toggle(field, value).toggle(field) == value,
{
}

proof fn lemma_performance_toggles(d: ConfigDraft, field: ToggleField, value: bool)
    requires
        field == ToggleField::PerformanceVsync,
    ensures
        d.with_toggle(field, value).toggle(field) == value,
{
}

proof fn lemma_ui_toggles(d: ConfigDraft, field: ToggleField, value: bool)
    requires
        field == ToggleField::UiShowStatusBar || field == ToggleField::UiShowFrozenBadge || field == ToggleField::UiShowCapabilitiesWarning || field == ToggleField::UiContextMenuEnabled || field == ToggleField::UiXdgKeepOnFocusLoss || field == ToggleField::UiShowStatusBoardBadge || field == ToggleField::UiShowStatusPageBadge || field == ToggleField::UiShowPageBadgeWithStatusBar,
    ensures
        d.with_toggle(field, value).toggle(field) == value,
{
}

proof fn lemma_help_toggles(d: ConfigDraft, field: ToggleField, value: bool)
    requires
        field == ToggleField::UiHelpOverlayContextFilter,
    ensures
        d.with_toggle(field, value).toggle(field) == value,
{
}

proof fn lemma_toolbar_toggles(d: ConfigDraft, field: ToggleField, value: bool)
    requires
        field == ToggleField::UiToolbarTopPinned || field == ToggleField::UiToolbarSidePinned || field == ToggleField::UiToolbarUseIcons || field == ToggleField::UiToolbarShowMoreColors || field == ToggleField::UiToolbarPresetToasts || field == ToggleField::UiToolbarShowDelaySliders || field == ToggleField::UiToolbarShowMarkerOpacitySection || field == ToggleField::UiToolbarShowToolPreview || field == ToggleField::UiToolbarForceInline,
    ensures
        d.with_toggle(field, value).toggle(field) == value,
{
}

proof fn lemma_toolbar_sections_toggles(d: ConfigDraft, field: ToggleField, value: bool)
    requires
        field == ToggleField::UiToolbarShowPresets || field == ToggleField::UiToolbarShowActionsSection || field == ToggleField::UiToolbarShowActionsAdvanced || field == ToggleField::UiToolbarShowZoomActions || field == ToggleField::UiToolbarShowPagesSection || field == ToggleField::UiToolbarShowBoardsSection || field == ToggleField::UiToolbarShowStepSection || field == ToggleField::UiToolbarShowTextControls || field == ToggleField::UiToolbarShowSettingsSection,
    ensures
        d.with_toggle(field, value).toggle(field) == value,
{
}

proof fn lemma_click_highlight_toggles(d: ConfigDraft, field: ToggleField, value: bool)
    requires
        field == ToggleField::UiClickHighlightEnabled || field == ToggleField::UiClickHighlightShowOnHighlightTool || field == ToggleField::UiClickHighlightUsePenColor,
    ensures
        d.with_toggle(field, value).toggle(field) == value,
{
}

proof fn lemma_presenter_toggles(d: ConfigDraft, field: ToggleField, value: bool)
    requires
        field == ToggleField::PresenterHideStatusBar || field == ToggleField::PresenterHideToolbars || field == ToggleField::PresenterHideToolPreview || field == ToggleField::PresenterCloseHelpOverlay || field == ToggleField::PresenterEnableClickHighlight || field == ToggleField::PresenterShowToast,
    ensures
        d.with_toggle(field, value).toggle(field) == value,
{
}

proof fn lemma_boards_toggles(d: ConfigDraft, field: ToggleField, value: bool)
    requires
        field == ToggleField::BoardsAutoCreate || field == ToggleField::BoardsShowBadge || field == ToggleField::BoardsPersistCustomizations,
    ensures
        d.with_toggle(field, value).toggle(field) == value,
{
}

proof fn lemma_capture_toggles(d: ConfigDraft, field: ToggleField, value: bool)
    requires
        field == ToggleField::CaptureEnabled || field == ToggleField::CaptureCopyToClipboard || field == ToggleField::CaptureExitAfter,
    ensures
        d.with_toggle(field, value).toggle(field) == value,
{
}

proof fn lemma_session_toggles(d: ConfigDraft, field: ToggleField, value: bool)
    requires
        field == ToggleField::SessionPersistTransparent || field == ToggleField::SessionPersistWhiteboard || field == ToggleField::SessionPersistBlackboard || field == ToggleField::SessionPersistHistory || field == ToggleField::SessionRestoreToolState || field == ToggleField::SessionPerOutput || field == ToggleField::SessionAutosaveEnabled,
    ensures
        d.with_toggle(field, value).toggle(field) == value,
{
}

proof fn lemma_history_toggles(d: ConfigDraft, field: ToggleField, value: bool)
    requires
        field == ToggleField::HistoryCustomSectionEnabled,
    ensures
        d.with_toggle(field, value).toggle(field) == value,
{
}

proof fn lemma_arrow_toggles(d: ConfigDraft, field: ToggleField, value: bool)
    requires
        field == ToggleField::ArrowHeadAtEnd,
    ensures
        d.with_toggle(field, value).toggle(field) == value,
{
}

/// Setting a toggle is read back by that toggle.
pub proof fn lemma_toggle_read_after_write(d: ConfigDraft, field: ToggleField, value: bool)
    ensures
        d.with_toggle(field, value).toggle(field) == value,
{
    match field {
        ToggleField::DrawingTextBackground | ToggleField::DrawingFillEnabled => lemma_drawing_toggles(d, field, value),
        ToggleField::PerformanceVsync => lemma_performance_toggles(d, field, value),
        ToggleField::UiShowStatusBar | ToggleField::UiShowFrozenBadge | ToggleField::UiShowCapabilitiesWarning | ToggleField::UiContextMenuEnabled | ToggleField::UiXdgKeepOnFocusLoss | ToggleField::UiShowStatusBoardBadge | ToggleField::UiShowStatusPageBadge | ToggleField::UiShowPageBadgeWithStatusBar => lemma_ui_toggles(d, field, value),
        ToggleField::UiHelpOverlayContextFilter => lemma_help_toggles(d, field, value),
        ToggleField::UiToolbarTopPinned | ToggleField::UiToolbarSidePinned | ToggleField::UiToolbarUseIcons | ToggleField::UiToolbarShowMoreColors | ToggleField::UiToolbarPresetToasts | ToggleField::UiToolbarShowDelaySliders | ToggleField::UiToolbarShowMarkerOpacitySection | ToggleField::UiToolbarShowToolPreview | ToggleField::UiToolbarForceInline => lemma_toolbar_toggles(d, field, value),
        ToggleField::UiToolbarShowPresets | ToggleField::UiToolbarShowActionsSection | ToggleField::UiToolbarShowActionsAdvanced | ToggleField::UiToolbarShowZoomActions | ToggleField::UiToolbarShowPagesSection | ToggleField::UiToolbarShowBoardsSection | ToggleField::UiToolbarShowStepSection | ToggleField::UiToolbarShowTextControls | ToggleField::UiToolbarShowSettingsSection => lemma_toolbar_sections_toggles(d, field, value),
        ToggleField::UiClickHighlightEnabled | ToggleField::UiClickHighlightShowOnHighlightTool | ToggleField::UiClickHighlightUsePenColor => lemma_click_highlight_toggles(d, field, value),
        ToggleField::PresenterHideStatusBar | ToggleField::PresenterHideToolbars | ToggleField::PresenterHideToolPreview | ToggleField::PresenterCloseHelpOverlay | ToggleField::PresenterEnableClickHighlight | ToggleField::PresenterShowToast => lemma_presenter_toggles(d, field, value),
        ToggleField::BoardsAutoCreate | ToggleField::BoardsShowBadge | ToggleField::BoardsPersistCustomizations => lemma_boards_toggles(d, field, value),
        ToggleField::CaptureEnabled | ToggleField::CaptureCopyToClipboard | ToggleField::CaptureExitAfter => lemma_capture_toggles(d, field, value),
        ToggleField::SessionPersistTransparent | ToggleField::SessionPersistWhiteboard | ToggleField::SessionPersistBlackboard | ToggleField::SessionPersistHistory | ToggleField::SessionRestoreToolState | ToggleField::SessionPerOutput | ToggleField::SessionAutosaveEnabled => lemma_session_toggles(d, field, value),
        ToggleField::HistoryCustomSectionEnabled => lemma_history_toggles(d, field, value),
        ToggleField::ArrowHeadAtEnd => lemma_arrow_toggles(d, field, value),
    }
}

/// Setting a text field is read back by that field and leaves every other text field as it was.
pub proof fn lemma_text_read_after_write(d: ConfigDraft, field: TextField, other: TextField, value: String)
    ensures
        d.with_text(field, value).text(field) == value,
        other != field ==> d.with_text(field, value).text(other) == d.text(other),
{
}


impl ConfigDraft {
    /// Every section with the toggle applied; sections without the field stay as they are.
    pub open spec fn with_toggle_everywhere(self, field: ToggleField, value: bool) -> ConfigDraft {
        ConfigDraft {
            drawing: self.drawing.with_toggle(field, value),
            performance: self.performance.with_toggle(field, value),
            ui: self.ui.with_toggle(field, value),
            help: self.help.with_toggle(field, value),
            toolbar: self.toolbar.with_toggle(field, value),
            toolbar_sections: self.toolbar_sections.with_toggle(field, value),
            click_highlight: self.click_highlight.with_toggle(field, value),
            presenter: self.presenter.with_toggle(field, value),
            boards: self.boards.with_toggle(field, value),
            capture: self.capture.with_toggle(field, value),
            session: self.session.with_toggle(field, value),
            history: self.history.with_toggle(field, value),
            arrow: self.arrow.with_toggle(field, value),
            ..self
        }
    }
}

proof fn lemma_toggle_touches_its_section(d: ConfigDraft, field: ToggleField, value: bool)
    ensures
        d.with_toggle(field, value) == d.with_toggle_everywhere(field, value),
{
    match field {
        ToggleField::DrawingTextBackground => {},
        ToggleField::DrawingFillEnabled => {},
        ToggleField::PerformanceVsync => {},
        ToggleField::UiShowStatusBar => {},
        ToggleField::UiShowFrozenBadge => {},
        ToggleField::UiShowCapabilitiesWarning => {},
        ToggleField::UiHelpOverlayContextFilter => {},
        ToggleField::UiContextMenuEnabled => {},
        ToggleField::UiXdgKeepOnFocusLoss => {},
        ToggleField::UiToolbarTopPinned => {},
        ToggleField::UiToolbarSidePinned => {},
        ToggleField::UiToolbarUseIcons => {},
        ToggleField::UiToolbarShowMoreColors => {},
        ToggleField::UiToolbarPresetToasts => {},
        ToggleField::UiToolbarShowPresets => {},
        ToggleField::UiToolbarShowActionsSection => {},
        ToggleField::UiToolbarShowActionsAdvanced => {},
        ToggleField::UiToolbarShowZoomActions => {},
        ToggleField::UiToolbarShowPagesSection => {},
        ToggleField::UiToolbarShowBoardsSection => {},
        ToggleField::UiToolbarShowStepSection => {},
        ToggleField::UiToolbarShowTextControls => {},
        ToggleField::UiToolbarShowSettingsSection => {},
        ToggleField::UiToolbarShowDelaySliders => {},
        ToggleField::UiToolbarShowMarkerOpacitySection => {},
        ToggleField::UiToolbarShowToolPreview => {},
        ToggleField::UiToolbarForceInline => {},
        ToggleField::UiClickHighlightEnabled => {},
        ToggleField::UiClickHighlightShowOnHighlightTool => {},
        ToggleField::UiClickHighlightUsePenColor => {},
        ToggleField::UiShowStatusBoardBadge => {},
        ToggleField::UiShowStatusPageBadge => {},
        ToggleField::UiShowPageBadgeWithStatusBar => {},
        ToggleField::PresenterHideStatusBar => {},
        ToggleField::PresenterHideToolbars => {},
        ToggleField::PresenterHideToolPreview => {},
        ToggleField::PresenterCloseHelpOverlay => {},
        ToggleField::PresenterEnableClickHighlight => {},
        ToggleField::PresenterShowToast => {},
        ToggleField::BoardsAutoCreate => {},
        ToggleField::BoardsShowBadge => {},
        ToggleField::BoardsPersistCustomizations => {},
        ToggleField::CaptureEnabled => {},
        ToggleField::CaptureCopyToClipboard => {},
        ToggleField::CaptureExitAfter => {},
        ToggleField::SessionPersistTransparent => {},
        ToggleField::SessionPersistWhiteboard => {},
        ToggleField::SessionPersistBlackboard => {},
        ToggleField::SessionPersistHistory => {},
        ToggleField::SessionRestoreToolState => {},
        ToggleField::SessionPerOutput => {},
        ToggleField::SessionAutosaveEnabled => {},
        ToggleField::HistoryCustomSectionEnabled => {},
        ToggleField::ArrowHeadAtEnd => {},
    }
}

proof fn lemma_drawing_toggles_commute(s: DrawingDraft, f1: ToggleField, v1: bool, f2: ToggleField, v2: bool)
    requires
        f1 != f2,
    ensures
        s.with_toggle(f1, v1).with_toggle(f2, v2) == s.with_toggle(f2, v2).with_toggle(f1, v1),
{
}

proof fn lemma_performance_toggles_commute(s: PerformanceDraft, f1: ToggleField, v1: bool, f2: ToggleField, v2: bool)
    requires
        f1 != f2,
    ensures
        s.with_toggle(f1, v1).with_toggle(f2, v2) == s.with_toggle(f2, v2).with_toggle(f1, v1),
{
}

proof fn lemma_ui_toggles_commute(s: UiDraft, f1: ToggleField, v1: bool, f2: ToggleField, v2: bool)
    requires
        f1 != f2,
    ensures
        s.with_toggle(f1, v1).with_toggle(f2, v2) == s.with_toggle(f2, v2).with_toggle(f1, v1),
{
}

proof fn lemma_help_toggles_commute(s: HelpDraft, f1: ToggleField, v1: bool, f2: ToggleField, v2: bool)
    requires
        f1 != f2,
    ensures
        s.with_toggle(f1, v1).with_toggle(f2, v2) == s.with_toggle(f2, v2).with_toggle(f1, v1),
{
}

#[verifier::rlimit(100)]
#[verifier::spinoff_prover]
proof fn lemma_toolbar_toggles_commute(s: ToolbarDraft, f1: ToggleField, v1: bool, f2: ToggleField, v2: bool)
    requires
        f1 != f2,
    ensures
        s.with_toggle(f1, v1).with_toggle(f2, v2) == s.with_toggle(f2, v2).with_toggle(f1, v1),
{
    match f1 {
        ToggleField::UiToolbarTopPinned => match f2 {
                ToggleField::UiToolbarTopPinned => {},
                ToggleField::UiToolbarSidePinned => {},
                ToggleField::UiToolbarUseIcons => {},
                ToggleField::UiToolbarShowMoreColors => {},
                ToggleField::UiToolbarPresetToasts => {},
                ToggleField::UiToolbarShowDelaySliders => {},
                ToggleField::UiToolbarShowMarkerOpacitySection => {},
                ToggleField::UiToolbarShowToolPreview => {},
                ToggleField::UiToolbarForceInline => {},
                _ => {},
            },
        ToggleField::UiToolbarSidePinned => match f2 {
                ToggleField::UiToolbarTopPinned => {},
                ToggleField::UiToolbarSidePinned => {},
                ToggleField::UiToolbarUseIcons => {},
                ToggleField::UiToolbarShowMoreColors => {},
                ToggleField::UiToolbarPresetToasts => {},
                ToggleField::UiToolbarShowDelaySliders => {},
                ToggleField::UiToolbarShowMarkerOpacitySection => {},
                ToggleField::UiToolbarShowToolPreview => {},
                ToggleField::UiToolbarForceInline => {},
                _ => {},
            },
        ToggleField::UiToolbarUseIcons => match f2 {
                ToggleField::UiToolbarTopPinned => {},
                ToggleField::UiToolbarSidePinned => {},
                ToggleField::UiToolbarUseIcons => {},
                ToggleField::UiToolbarShowMoreColors => {},
                ToggleField::UiToolbarPresetToasts => {},
                ToggleField::UiToolbarShowDelaySliders => {},
                ToggleField::UiToolbarShowMarkerOpacitySection => {},
                ToggleField::UiToolbarShowToolPreview => {},
                ToggleField::UiToolbarForceInline => {},
                _ => {},
            },
        ToggleField::UiToolbarShowMoreColors => match f2 {
                ToggleField::UiToolbarTopPinned => {},
                ToggleField::UiToolbarSidePinned => {},
                ToggleField::UiToolbarUseIcons => {},
                ToggleField::UiToolbarShowMoreColors => {},
                ToggleField::UiToolbarPresetToasts => {},
                ToggleField::UiToolbarShowDelaySliders => {},
                ToggleField::UiToolbarShowMarkerOpacitySection => {},
                ToggleField::UiToolbarShowToolPreview => {},
                ToggleField::UiToolbarForceInline => {},
                _ => {},
            },
        ToggleField::UiToolbarPresetToasts => match f2 {
                ToggleField::UiToolbarTopPinned => {},
                ToggleField::UiToolbarSidePinned => {},
                ToggleField::UiToolbarUseIcons => {},
                ToggleField::UiToolbarShowMoreColors => {},
                ToggleField::UiToolbarPresetToasts => {},
                ToggleField::UiToolbarShowDelaySliders => {},
                ToggleField::UiToolbarShowMarkerOpacitySection => {},
                ToggleField::UiToolbarShowToolPreview => {},
                ToggleField::UiToolbarForceInline => {},
                _ => {},
            },
        ToggleField::UiToolbarShowDelaySliders => match f2 {
                ToggleField::UiToolbarTopPinned => {},
                ToggleField::UiToolbarSidePinned => {},
                ToggleField::UiToolbarUseIcons => {},
                ToggleField::UiToolbarShowMoreColors => {},
                ToggleField::UiToolbarPresetToasts => {},
                ToggleField::UiToolbarShowDelaySliders => {},
                ToggleField::UiToolbarShowMarkerOpacitySection => {},
                ToggleField::UiToolbarShowToolPreview => {},
                ToggleField::UiToolbarForceInline => {},
                _ => {},
            },
        ToggleField::UiToolbarShowMarkerOpacitySection => match f2 {
                ToggleField::UiToolbarTopPinned => {},
                ToggleField::UiToolbarSidePinned => {},
                ToggleField::UiToolbarUseIcons => {},
                ToggleField::UiToolbarShowMoreColors => {},
                ToggleField::UiToolbarPresetToasts => {},
                ToggleField::UiToolbarShowDelaySliders => {},
                ToggleField::UiToolbarShowMarkerOpacitySection => {},
                ToggleField::UiToolbarShowToolPreview => {},
                ToggleField::UiToolbarForceInline => {},
                _ => {},
            },
        ToggleField::UiToolbarShowToolPreview => match f2 {
                ToggleField::UiToolbarTopPinned => {},
                ToggleField::UiToolbarSidePinned => {},
                ToggleField::UiToolbarUseIcons => {},
                ToggleField::UiToolbarShowMoreColors => {},
                ToggleField::UiToolbarPresetToasts => {},
                ToggleField::UiToolbarShowDelaySliders => {},
                ToggleField::UiToolbarShowMarkerOpacitySection => {},
                ToggleField::UiToolbarShowToolPreview => {},
                ToggleField::UiToolbarForceInline => {},
                _ => {},
            },
        ToggleField::UiToolbarForceInline => match f2 {
                ToggleField::UiToolbarTopPinned => {},
                ToggleField::UiToolbarSidePinned => {},
                ToggleField::UiToolbarUseIcons => {},
                ToggleField::UiToolbarShowMoreColors => {},
                ToggleField::UiToolbarPresetToasts => {},
                ToggleField::UiToolbarShowDelaySliders => {},
                ToggleField::UiToolbarShowMarkerOpacitySection => {},
                ToggleField::UiToolbarShowToolPreview => {},
                ToggleField::UiToolbarForceInline => {},
                _ => {},
            },
        _ => {},
    }
}

#[verifier::rlimit(100)]
#[verifier::spinoff_prover]
proof fn lemma_toolbar_sections_toggles_commute(s: ToolbarSectionsDraft, f1: ToggleField, v1: bool, f2: ToggleField, v2: bool)
    requires
        f1 != f2,
    ensures
        s.with_toggle(f1, v1).with_toggle(f2, v2) == s.with_toggle(f2, v2).with_toggle(f1, v1),
{
    match f1 {
        ToggleField::UiToolbarShowPresets => match f2 {
                ToggleField::UiToolbarShowPresets => {},
                ToggleField::UiToolbarShowActionsSection => {},
                ToggleField::UiToolbarShowActionsAdvanced => {},
                ToggleField::UiToolbarShowZoomActions => {},
                ToggleField::UiToolbarShowPagesSection => {},
                ToggleField::UiToolbarShowBoardsSection => {},
                ToggleField::UiToolbarShowStepSection => {},
                ToggleField::UiToolbarShowTextControls => {},
                ToggleField::UiToolbarShowSettingsSection => {},
                _ => {},
            },
        ToggleField::UiToolbarShowActionsSection => match f2 {
                ToggleField::UiToolbarShowPresets => {},
                ToggleField::UiToolbarShowActionsSection => {},
                ToggleField::UiToolbarShowActionsAdvanced => {},
                ToggleField::UiToolbarShowZoomActions => {},
                ToggleField::UiToolbarShowPagesSection => {},
                ToggleField::UiToolbarShowBoardsSection => {},
                ToggleField::UiToolbarShowStepSection => {},
                ToggleField::UiToolbarShowTextControls => {},
                ToggleField::UiToolbarShowSettingsSection => {},
                _ => {},
            },
        ToggleField::UiToolbarShowActionsAdvanced => match f2 {
                ToggleField::UiToolbarShowPresets => {},
                ToggleField::UiToolbarShowActionsSection => {},
                ToggleField::UiToolbarShowActionsAdvanced => {},
                ToggleField::UiToolbarShowZoomActions => {},
                ToggleField::UiToolbarShowPagesSection => {},
                ToggleField::UiToolbarShowBoardsSection => {},
                ToggleField::UiToolbarShowStepSection => {},
                ToggleField::UiToolbarShowTextControls => {},
                ToggleField::UiToolbarShowSettingsSection => {},
                _ => {},
            },
        ToggleField::UiToolbarShowZoomActions => match f2 {
                ToggleField::UiToolbarShowPresets => {},
                ToggleField::UiToolbarShowActionsSection => {},
                ToggleField::UiToolbarShowActionsAdvanced => {},
                ToggleField::UiToolbarShowZoomActions => {},
                ToggleField::UiToolbarShowPagesSection => {},
                ToggleField::UiToolbarShowBoardsSection => {},
                ToggleField::UiToolbarShowStepSection => {},
                ToggleField::UiToolbarShowTextControls => {},
                ToggleField::UiToolbarShowSettingsSection => {},
                _ => {},
            },
        ToggleField::UiToolbarShowPagesSection => match f2 {
                ToggleField::UiToolbarShowPresets => {},
                ToggleField::UiToolbarShowActionsSection => {},
                ToggleField::UiToolbarShowActionsAdvanced => {},
                ToggleField::UiToolbarShowZoomActions => {},
                ToggleField::UiToolbarShowPagesSection => {},
                ToggleField::UiToolbarShowBoardsSection => {},
                ToggleField::UiToolbarShowStepSection => {},
                ToggleField::UiToolbarShowTextControls => {},
                ToggleField::UiToolbarShowSettingsSection => {},
                _ => {},
            },
        ToggleField::UiToolbarShowBoardsSection => match f2 {
                ToggleField::UiToolbarShowPresets => {},
                ToggleField::UiToolbarShowActionsSection => {},
                ToggleField::UiToolbarShowActionsAdvanced => {},
                ToggleField::UiToolbarShowZoomActions => {},
                ToggleField::UiToolbarShowPagesSection => {},
                ToggleField::UiToolbarShowBoardsSection => {},
                ToggleField::UiToolbarShowStepSection => {},
                ToggleField::UiToolbarShowTextControls => {},
                ToggleField::UiToolbarShowSettingsSection => {},
                _ => {},
            },
        ToggleField::UiToolbarShowStepSection => match f2 {
                ToggleField::UiToolbarShowPresets => {},
                ToggleField::UiToolbarShowActionsSection => {},
                ToggleField::UiToolbarShowActionsAdvanced => {},
                ToggleField::UiToolbarShowZoomActions => {},
                ToggleField::UiToolbarShowPagesSection => {},
                ToggleField::UiToolbarShowBoardsSection => {},
                ToggleField::UiToolbarShowStepSection => {},
                ToggleField::UiToolbarShowTextControls => {},
                ToggleField::UiToolbarShowSettingsSection => {},
                _ => {},
            },
        ToggleField::UiToolbarShowTextControls => match f2 {
                ToggleField::UiToolbarShowPresets => {},
                ToggleField::UiToolbarShowActionsSection => {},
                ToggleField::UiToolbarShowActionsAdvanced => {},
                ToggleField::UiToolbarShowZoomActions => {},
                ToggleField::UiToolbarShowPagesSection => {},
                ToggleField::UiToolbarShowBoardsSection => {},
                ToggleField::UiToolbarShowStepSection => {},
                ToggleField::UiToolbarShowTextControls => {},
                ToggleField::UiToolbarShowSettingsSection => {},
                _ => {},
            },
        ToggleField::UiToolbarShowSettingsSection => match f2 {
                ToggleField::UiToolbarShowPresets => {},
                ToggleField::UiToolbarShowActionsSection => {},
                ToggleField::UiToolbarShowActionsAdvanced => {},
                ToggleField::UiToolbarShowZoomActions => {},
                ToggleField::UiToolbarShowPagesSection => {},
                ToggleField::UiToolbarShowBoardsSection => {},
                ToggleField::UiToolbarShowStepSection => {},
                ToggleField::UiToolbarShowTextControls => {},
                ToggleField::UiToolbarShowSettingsSection => {},
                _ => {},
            },
        _ => {},
    }
}

proof fn lemma_click_highlight_toggles_commute(s: ClickHighlightDraft, f1: ToggleField, v1: bool, f2: ToggleField, v2: bool)
    requires
        f1 != f2,
    ensures
        s.with_toggle(f1, v1).with_toggle(f2, v2) == s.with_toggle(f2, v2).with_toggle(f1, v1),
{
}

proof fn lemma_presenter_toggles_commute(s: PresenterDraft, f1: ToggleField, v1: bool, f2: ToggleField, v2: bool)
    requires
        f1 != f2,
    ensures
        s.with_toggle(f1, v1).with_toggle(f2, v2) == s.with_toggle(f2, v2).with_toggle(f1, v1),
{
}

proof fn lemma_boards_toggles_commute(s: BoardsDraft, f1: ToggleField, v1: bool, f2: ToggleField, v2: bool)
    requires
        f1 != f2,
    ensures
        s.with_toggle(f1, v1).with_toggle(f2, v2) == s.with_toggle(f2, v2).with_toggle(f1, v1),
{
}

proof fn lemma_capture_toggles_commute(s: CaptureDraft, f1: ToggleField, v1: bool, f2: ToggleField, v2: bool)
    requires
        f1 != f2,
    ensures
        s.with_toggle(f1, v1).with_toggle(f2, v2) == s.with_toggle(f2, v2).with_toggle(f1, v1),
{
}

proof fn lemma_session_toggles_commute(s: SessionDraft, f1: ToggleField, v1: bool, f2: ToggleField, v2: bool)
    requires
        f1 != f2,
    ensures
        s.with_toggle(f1, v1).with_toggle(f2, v2) == s.with_toggle(f2, v2).with_toggle(f1, v1),
{    match f1 {
        ToggleField::SessionPersistTransparent => {},
        ToggleField::SessionPersistWhiteboard => {},
        ToggleField::SessionPersistBlackboard => {},
        ToggleField::SessionPersistHistory => {},
        ToggleField::SessionRestoreToolState => {},
        ToggleField::SessionPerOutput => {},
        ToggleField::SessionAutosaveEnabled => {},
        _ => {},
    }
}

proof fn lemma_history_toggles_commute(s: HistoryDraft, f1: ToggleField, v1: bool, f2: ToggleField, v2: bool)
    requires
        f1 != f2,
    ensures
        s.with_toggle(f1, v1).with_toggle(f2, v2) == s.with_toggle(f2, v2).with_toggle(f1, v1),
{
}

proof fn lemma_arrow_toggles_commute(s: ArrowDraft, f1: ToggleField, v1: bool, f2: ToggleField, v2: bool)
    requires
        f1 != f2,
    ensures
        s.with_toggle(f1, v1).with_toggle(f2, v2) == s.with_toggle(f2, v2).with_toggle(f1, v1),
{
}

/// Toggles on distinct fields commute: setting one and then the other gives the same
/// draft as the other order.
pub proof fn lemma_toggles_commute(d: ConfigDraft, f1: ToggleField, v1: bool, f2: ToggleField, v2: bool)
    requires
        f1 != f2,
    ensures
        d.with_toggle(f1, v1).with_toggle(f2, v2) == d.with_toggle(f2, v2).with_toggle(f1, v1),
{
    lemma_toggle_touches_its_section(d, f1, v1);
    lemma_toggle_touches_its_section(d, f2, v2);
    lemma_toggle_touches_its_section(d.with_toggle(f1, v1), f2, v2);
    lemma_toggle_touches_its_section(d.with_toggle(f2, v2), f1, v1);
    lemma_drawing_toggles_commute(d.drawing, f1, v1, f2, v2);
    lemma_performance_toggles_commute(d.performance, f1, v1, f2, v2);
    lemma_ui_toggles_commute(d.ui, f1, v1, f2, v2);
    lemma_help_toggles_commute(d.help, f1, v1, f2, v2);
    lemma_toolbar_toggles_commute(d.toolbar, f1, v1, f2, v2);
    lemma_toolbar_sections_toggles_commute(d.toolbar_sections, f1, v1, f2, v2);
    lemma_click_highlight_toggles_commute(d.click_highlight, f1, v1, f2, v2);
    lemma_presenter_toggles_commute(d.presenter, f1, v1, f2, v2);
    lemma_boards_toggles_commute(d.boards, f1, v1, f2, v2);
    lemma_capture_toggles_commute(d.capture, f1, v1, f2, v2);
    lemma_session_toggles_commute(d.session, f1, v1, f2, v2);
    lemma_history_toggles_commute(d.history, f1, v1, f2, v2);
    lemma_arrow_toggles_commute(d.arrow, f1, v1, f2, v2);
}

} // verus!
