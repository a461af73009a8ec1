//! The user-interface, presenter and capture sections of the configuration as the
//! configurator edits them: filling the draft from the configuration, and writing the
//! draft's plain fields (flags, choices, names and whole numbers) back. Floating-point
//! fields are formatted and parsed by the caller.
use vstd::prelude::*;
use crate::config_draft::{
    ArrowDraft, ClickHighlightDraft, ColorInput, ColorQuadInput, ConfigDraft, DrawingDraft,
    EraserModeOption, FontStyleOption, FontWeightOption, HelpDraft, OverrideOption, StatusDraft,
    BoardsDraft, ToolOption, ToolbarModeOverrideDraft, ToolbarModeOverridesDraft, ToolbarOverrideField,
    CaptureDraft, HistoryDraft, PerformanceDraft, SessionCompressionOption, SessionDraft,
    SessionStorageModeOption, PresenterDraft, PresenterToolBehaviorOption, StatusPositionOption,
    ToolbarDraft, ToolbarLayoutModeOption, ToolbarSectionsDraft, UiDraft,
};
use crate::selection::{decimal, decimal_string_u64, digit_char, lemma_decimal_digits};
use crate::text::{is_whitespace, trim_end, trim_start};
use crate::text::{chars_of, string_of, trim, trim_range};

verus! {

/// What the overlay does when its xdg window loses focus.
#[derive(Debug, Clone, Copy, PartialEq, Eq, Structural)]
pub enum XdgFocusLossBehavior {
    Stay,
    Exit,
}

/// The plain fields of the user-interface section of the configuration.
#[derive(Debug, Clone)]
pub struct UiConfigModel {
    pub show_status_bar: bool,
    pub show_status_board_badge: bool,
    pub show_status_page_badge: bool,
    pub show_floating_badge_always: bool,
    pub show_frozen_badge: bool,
    pub show_capabilities_warning: bool,
    pub context_menu_enabled: bool,
    pub preferred_output: Option<String>,
    pub xdg_focus_loss_behavior: XdgFocusLossBehavior,
    pub command_palette_toast_duration_ms: u64,
    pub toolbar: ToolbarConfigModel,
    pub toolbar_mode_overrides: ToolbarModeOverridesModel,
    pub status_bar_position: StatusPositionOption,
    pub click_highlight_enabled: bool,
    pub click_highlight_show_on_highlight_tool: bool,
    pub click_highlight_use_pen_color: bool,
    pub click_highlight_duration_ms: u64,
    pub help_font_family: String,
    pub help_overlay_context_filter: bool,
}

/// The plain fields of the toolbar part of the user-interface section.
#[derive(Debug, Clone, Copy, PartialEq, Eq, Structural)]
pub struct ToolbarConfigModel {
    pub top_pinned: bool,
    pub side_pinned: bool,
    pub use_icons: bool,
    pub show_more_colors: bool,
    pub show_preset_toasts: bool,
    pub layout_mode: ToolbarLayoutModeOption,
    pub show_presets: bool,
    pub show_actions_section: bool,
    pub show_actions_advanced: bool,
    pub show_zoom_actions: bool,
    pub show_pages_section: bool,
    pub show_boards_section: bool,
    pub show_step_section: bool,
    pub show_text_controls: bool,
    pub show_settings_section: bool,
    pub show_delay_sliders: bool,
    pub show_marker_opacity_section: bool,
    pub show_tool_preview: bool,
    pub force_inline: bool,
}

/// The presenter-mode section of the configuration.
#[derive(Debug, Clone, Copy, PartialEq, Eq, Structural)]
pub struct PresenterConfigModel {
    pub hide_status_bar: bool,
    pub hide_toolbars: bool,
    pub hide_tool_preview: bool,
    pub close_help_overlay: bool,
    pub enable_click_highlight: bool,
    pub tool_behavior: PresenterToolBehaviorOption,
    pub show_toast: bool,
}

/// The capture section of the configuration.
#[derive(Debug, Clone)]
pub struct CaptureConfigModel {
    pub enabled: bool,
    pub save_directory: String,
    pub filename_template: String,
    pub format: String,
    pub copy_to_clipboard: bool,
    pub exit_after_capture: bool,
}

/// The toolbar offsets, already formatted as text.
#[derive(Debug, Clone)]
pub struct ToolbarOffsetTexts {
    pub top_offset: String,
    pub top_offset_y: String,
    pub side_offset: String,
    pub side_offset_x: String,
}

/// The forced visibility of the toolbar sections in one layout: `None` keeps the layout's
/// default, `Some(shown)` forces it.
#[derive(Debug, Clone, Copy, PartialEq, Eq, Structural)]
pub struct ModeOverridesModel {
    pub show_presets: Option<bool>,
    pub show_actions_section: Option<bool>,
    pub show_actions_advanced: Option<bool>,
    pub show_zoom_actions: Option<bool>,
    pub show_pages_section: Option<bool>,
    pub show_boards_section: Option<bool>,
    pub show_step_section: Option<bool>,
    pub show_text_controls: Option<bool>,
    pub show_settings_section: Option<bool>,
}

/// The section overrides of the three toolbar layouts.
#[derive(Debug, Clone, Copy, PartialEq, Eq, Structural)]
pub struct ToolbarModeOverridesModel {
    pub simple: ModeOverridesModel,
    pub regular: ModeOverridesModel,
    pub advanced: ModeOverridesModel,
}

/// The draft choice for an override: default, show or hide.
pub open spec fn spec_override_option(v: Option<bool>) -> OverrideOption {
    match v {
        None => OverrideOption::Default,
        Some(true) => OverrideOption::Show,
        Some(false) => OverrideOption::Hide,
    }
}

/// The override a draft choice stands for.
pub open spec fn spec_override_value(o: OverrideOption) -> Option<bool> {
    match o {
        OverrideOption::Default => None,
        OverrideOption::Show => Some(true),
        OverrideOption::Hide => Some(false),
    }
}

fn override_option_of(v: Option<bool>) -> (o: OverrideOption)
    ensures
        o == spec_override_option(v),
{
    match v {
        None => OverrideOption::Default,
        Some(true) => OverrideOption::Show,
        Some(false) => OverrideOption::Hide,
    }
}

fn override_value_of(o: OverrideOption) -> (v: Option<bool>)
    ensures
        v == spec_override_value(o),
{
    match o {
        OverrideOption::Default => None,
        OverrideOption::Show => Some(true),
        OverrideOption::Hide => Some(false),
    }
}

/// One layout's overrides as draft choices.
pub open spec fn spec_mode_draft(m: ModeOverridesModel) -> ToolbarModeOverrideDraft {
    ToolbarModeOverrideDraft {
        show_presets: spec_override_option(m.show_presets),
        show_actions_section: spec_override_option(m.show_actions_section),
        show_actions_advanced: spec_override_option(m.show_actions_advanced),
        show_zoom_actions: spec_override_option(m.show_zoom_actions),
        show_pages_section: spec_override_option(m.show_pages_section),
        show_boards_section: spec_override_option(m.show_boards_section),
        show_step_section: spec_override_option(m.show_step_section),
        show_text_controls: spec_override_option(m.show_text_controls),
        show_settings_section: spec_override_option(m.show_settings_section),
    }
}

/// One layout's draft choices as overrides.
pub open spec fn spec_mode_model(d: ToolbarModeOverrideDraft) -> ModeOverridesModel {
    ModeOverridesModel {
        show_presets: spec_override_value(d.show_presets),
        show_actions_section: spec_override_value(d.show_actions_section),
        show_actions_advanced: spec_override_value(d.show_actions_advanced),
        show_zoom_actions: spec_override_value(d.show_zoom_actions),
        show_pages_section: spec_override_value(d.show_pages_section),
        show_boards_section: spec_override_value(d.show_boards_section),
        show_step_section: spec_override_value(d.show_step_section),
        show_text_controls: spec_override_value(d.show_text_controls),
        show_settings_section: spec_override_value(d.show_settings_section),
    }
}

fn mode_draft_of(m: &ModeOverridesModel) -> (d: ToolbarModeOverrideDraft)
    ensures
        d == spec_mode_draft(*m),
{
    ToolbarModeOverrideDraft {
        show_presets: override_option_of(m.show_presets),
        show_actions_section: override_option_of(m.show_actions_section),
        show_actions_advanced: override_option_of(m.show_actions_advanced),
        show_zoom_actions: override_option_of(m.show_zoom_actions),
        show_pages_section: override_option_of(m.show_pages_section),
        show_boards_section: override_option_of(m.show_boards_section),
        show_step_section: override_option_of(m.show_step_section),
        show_text_controls: override_option_of(m.show_text_controls),
        show_settings_section: override_option_of(m.show_settings_section),
    }
}

fn mode_model_of(d: &ToolbarModeOverrideDraft) -> (m: ModeOverridesModel)
    ensures
        m == spec_mode_model(*d),
{
    ModeOverridesModel {
        show_presets: override_value_of(d.show_presets),
        show_actions_section: override_value_of(d.show_actions_section),
        show_actions_advanced: override_value_of(d.show_actions_advanced),
        show_zoom_actions: override_value_of(d.show_zoom_actions),
        show_pages_section: override_value_of(d.show_pages_section),
        show_boards_section: override_value_of(d.show_boards_section),
        show_step_section: override_value_of(d.show_step_section),
        show_text_controls: override_value_of(d.show_text_controls),
        show_settings_section: override_value_of(d.show_settings_section),
    }
}

/// The section overrides of all layouts as draft choices.
pub open spec fn spec_overrides_draft(m: ToolbarModeOverridesModel) -> ToolbarModeOverridesDraft {
    ToolbarModeOverridesDraft {
        simple: spec_mode_draft(m.simple),
        regular: spec_mode_draft(m.regular),
        advanced: spec_mode_draft(m.advanced),
    }
}

/// The draft choices of all layouts as section overrides.
pub open spec fn spec_overrides_model(d: ToolbarModeOverridesDraft) -> ToolbarModeOverridesModel {
    ToolbarModeOverridesModel {
        simple: spec_mode_model(d.simple),
        regular: spec_mode_model(d.regular),
        advanced: spec_mode_model(d.advanced),
    }
}

impl ModeOverridesModel {
    /// The overrides with the one for `field` replaced.
    pub open spec fn with_override(self, field: ToolbarOverrideField, value: Option<bool>) -> ModeOverridesModel {
        match field {
            ToolbarOverrideField::ShowPresets => ModeOverridesModel { show_presets: value, ..self },
            ToolbarOverrideField::ShowActionsSection => ModeOverridesModel { show_actions_section: value, ..self },
            ToolbarOverrideField::ShowActionsAdvanced => ModeOverridesModel { show_actions_advanced: value, ..self },
            ToolbarOverrideField::ShowZoomActions => ModeOverridesModel { show_zoom_actions: value, ..self },
            ToolbarOverrideField::ShowPagesSection => ModeOverridesModel { show_pages_section: value, ..self },
            ToolbarOverrideField::ShowBoardsSection => ModeOverridesModel { show_boards_section: value, ..self },
            ToolbarOverrideField::ShowStepSection => ModeOverridesModel { show_step_section: value, ..self },
            ToolbarOverrideField::ShowTextControls => ModeOverridesModel { show_text_controls: value, ..self },
            ToolbarOverrideField::ShowSettingsSection => ModeOverridesModel { show_settings_section: value, ..self },
        }
    }
}

/// Each section's choice in the draft follows the same section's override in the
/// configuration, and each override written back follows the same section's choice:
/// changing one section on either side changes that section, and only it, on the other.
pub proof fn lemma_overrides_follow_their_section(
    m: ModeOverridesModel,
    d: ToolbarModeOverrideDraft,
    field: ToolbarOverrideField,
    value: Option<bool>,
    choice: OverrideOption,
)
    ensures
        spec_mode_draft(m.with_override(field, value)) == spec_mode_draft(m).with_field(
            field,
            spec_override_option(value),
        ),
        spec_mode_model(d.with_field(field, choice)) == spec_mode_model(d).with_override(
            field,
            spec_override_value(choice),
        ),
{
    match field {
        ToolbarOverrideField::ShowPresets => {},
        ToolbarOverrideField::ShowActionsSection => {},
        ToolbarOverrideField::ShowActionsAdvanced => {},
        ToolbarOverrideField::ShowZoomActions => {},
        ToolbarOverrideField::ShowPagesSection => {},
        ToolbarOverrideField::ShowBoardsSection => {},
        ToolbarOverrideField::ShowStepSection => {},
        ToolbarOverrideField::ShowTextControls => {},
        ToolbarOverrideField::ShowSettingsSection => {},
    }
}

/// An absent override is the default choice, a shown one the show choice and a hidden one
/// the hide choice; writing back inverts this.
pub proof fn lemma_override_choices()
    ensures
        spec_override_option(None) == OverrideOption::Default,
        spec_override_option(Some(true)) == OverrideOption::Show,
        spec_override_option(Some(false)) == OverrideOption::Hide,
        forall|v: Option<bool>| spec_override_value(#[trigger] spec_override_option(v)) == v,
{
}

/// The toolbar mode overrides draft filled from the configuration.
pub fn overrides_draft_from_config(m: &ToolbarModeOverridesModel) -> (d: ToolbarModeOverridesDraft)
    ensures
        d == spec_overrides_draft(*m),
{
    ToolbarModeOverridesDraft {
        simple: mode_draft_of(&m.simple),
        regular: mode_draft_of(&m.regular),
        advanced: mode_draft_of(&m.advanced),
    }
}

/// The configuration's toolbar mode overrides written from the draft.
pub fn overrides_from_draft(d: &ToolbarModeOverridesDraft) -> (m: ToolbarModeOverridesModel)
    ensures
        m == spec_overrides_model(*d),
{
    ToolbarModeOverridesModel {
        simple: mode_model_of(&d.simple),
        regular: mode_model_of(&d.regular),
        advanced: mode_model_of(&d.advanced),
    }
}

proof fn lemma_override_value_round_trip(v: Option<bool>)
    ensures
        spec_override_value(spec_override_option(v)) == v,
{
}

proof fn lemma_mode_round_trip(m: ModeOverridesModel)
    ensures
        spec_mode_model(spec_mode_draft(m)) == m,
{
    lemma_override_value_round_trip(m.show_presets);
    lemma_override_value_round_trip(m.show_actions_section);
    lemma_override_value_round_trip(m.show_actions_advanced);
    lemma_override_value_round_trip(m.show_zoom_actions);
    lemma_override_value_round_trip(m.show_pages_section);
    lemma_override_value_round_trip(m.show_boards_section);
    lemma_override_value_round_trip(m.show_step_section);
    lemma_override_value_round_trip(m.show_text_controls);
    lemma_override_value_round_trip(m.show_settings_section);
}

/// Writing the draft's overrides back gives the configuration's overrides again.
pub proof fn lemma_overrides_round_trip(m: ToolbarModeOverridesModel)
    ensures
        spec_overrides_model(spec_overrides_draft(m)) == m,
{
    lemma_mode_round_trip(m.simple);
    lemma_mode_round_trip(m.regular);
    lemma_mode_round_trip(m.advanced);
}

/// A draft field whose text could not be read.
#[derive(Debug, Clone)]
pub struct FieldError {
    /// The configuration key of the field, such as `ui.click_highlight.duration_ms`.
    pub field: String,
}

/// The text of an optional name: the name, or empty.
pub open spec fn text_or_empty(s: Option<String>) -> Seq<char> {
    match s {
        Some(t) => t@,
        None => Seq::empty(),
    }
}

/// Whether `d` is the UiDraft filled from the configuration, field by field.
pub open spec fn ui_draft_of(d: UiDraft, c: UiConfigModel) -> bool {
    &&& d.ui_show_status_bar == c.show_status_bar
    &&& d.ui_show_status_board_badge == c.show_status_board_badge
    &&& d.ui_show_status_page_badge == c.show_status_page_badge
    &&& d.ui_show_page_badge_with_status_bar == c.show_floating_badge_always
    &&& d.ui_show_frozen_badge == c.show_frozen_badge
    &&& d.ui_show_capabilities_warning == c.show_capabilities_warning
    &&& d.ui_context_menu_enabled == c.context_menu_enabled
    &&& d.ui_preferred_output@ == text_or_empty(c.preferred_output)
    &&& d.ui_xdg_keep_on_focus_loss == (c.xdg_focus_loss_behavior == XdgFocusLossBehavior::Stay)
    &&& d.ui_command_palette_toast_duration_ms@ == decimal(c.command_palette_toast_duration_ms as nat)
}

/// The user-interface draft filled from the configuration.
pub fn ui_draft_from_config(c: &UiConfigModel) -> (d: UiDraft)
    ensures
        ui_draft_of(d, *c),
{
    let preferred = match &c.preferred_output {
        Some(name) => name.clone(),
        None => String::new(),
    };
    UiDraft {
        ui_show_status_bar: c.show_status_bar,
        ui_show_status_board_badge: c.show_status_board_badge,
        ui_show_status_page_badge: c.show_status_page_badge,
        ui_show_page_badge_with_status_bar: c.show_floating_badge_always,
        ui_show_frozen_badge: c.show_frozen_badge,
        ui_show_capabilities_warning: c.show_capabilities_warning,
        ui_context_menu_enabled: c.context_menu_enabled,
        ui_preferred_output: preferred,
        ui_xdg_keep_on_focus_loss: matches!(c.xdg_focus_loss_behavior, XdgFocusLossBehavior::Stay),
        ui_command_palette_toast_duration_ms: decimal_string_u64(c.command_palette_toast_duration_ms),
    }
}

/// Whether `d` is the ToolbarDraft filled from the configuration, field by field.
pub open spec fn toolbar_draft_of(d: ToolbarDraft, t: ToolbarConfigModel, offsets: ToolbarOffsetTexts) -> bool {
    &&& d.ui_toolbar_top_pinned == t.top_pinned
    &&& d.ui_toolbar_side_pinned == t.side_pinned
    &&& d.ui_toolbar_use_icons == t.use_icons
    &&& d.ui_toolbar_show_more_colors == t.show_more_colors
    &&& d.ui_toolbar_show_preset_toasts == t.show_preset_toasts
    &&& d.ui_toolbar_layout_mode == t.layout_mode
    &&& d.ui_toolbar_show_delay_sliders == t.show_delay_sliders
    &&& d.ui_toolbar_show_marker_opacity_section == t.show_marker_opacity_section
    &&& d.ui_toolbar_show_tool_preview == t.show_tool_preview
    &&& d.ui_toolbar_force_inline == t.force_inline
    &&& d.ui_toolbar_top_offset == offsets.top_offset
    &&& d.ui_toolbar_top_offset_y == offsets.top_offset_y
    &&& d.ui_toolbar_side_offset == offsets.side_offset
    &&& d.ui_toolbar_side_offset_x == offsets.side_offset_x
}

/// The toolbar draft filled from the configuration, with the offsets given as text.
pub fn toolbar_draft_from_config(t: &ToolbarConfigModel, offsets: ToolbarOffsetTexts) -> (d: ToolbarDraft)
    ensures
        toolbar_draft_of(d, *t, offsets),
{
    ToolbarDraft {
        ui_toolbar_top_pinned: t.top_pinned,
        ui_toolbar_side_pinned: t.side_pinned,
        ui_toolbar_use_icons: t.use_icons,
        ui_toolbar_show_more_colors: t.show_more_colors,
        ui_toolbar_show_preset_toasts: t.show_preset_toasts,
        ui_toolbar_layout_mode: t.layout_mode,
        ui_toolbar_show_delay_sliders: t.show_delay_sliders,
        ui_toolbar_show_marker_opacity_section: t.show_marker_opacity_section,
        ui_toolbar_show_tool_preview: t.show_tool_preview,
        ui_toolbar_force_inline: t.force_inline,
        ui_toolbar_top_offset: offsets.top_offset,
        ui_toolbar_top_offset_y: offsets.top_offset_y,
        ui_toolbar_side_offset: offsets.side_offset,
        ui_toolbar_side_offset_x: offsets.side_offset_x,
    }
}

/// Whether `d` is the ToolbarSectionsDraft filled from the configuration, field by field.
pub open spec fn toolbar_sections_of(d: ToolbarSectionsDraft, t: ToolbarConfigModel) -> bool {
    &&& d.ui_toolbar_show_presets == t.show_presets
    &&& d.ui_toolbar_show_actions_section == t.show_actions_section
    &&& d.ui_toolbar_show_actions_advanced == t.show_actions_advanced
    &&& d.ui_toolbar_show_zoom_actions == t.show_zoom_actions
    &&& d.ui_toolbar_show_pages_section == t.show_pages_section
    &&& d.ui_toolbar_show_boards_section == t.show_boards_section
    &&& d.ui_toolbar_show_step_section == t.show_step_section
    &&& d.ui_toolbar_show_text_controls == t.show_text_controls
    &&& d.ui_toolbar_show_settings_section == t.show_settings_section
}

/// The toolbar section flags filled from the configuration.
pub fn toolbar_sections_from_config(t: &ToolbarConfigModel) -> (d: ToolbarSectionsDraft)
    ensures
        toolbar_sections_of(d, *t),
{
    ToolbarSectionsDraft {
        ui_toolbar_show_presets: t.show_presets,
        ui_toolbar_show_actions_section: t.show_actions_section,
        ui_toolbar_show_actions_advanced: t.show_actions_advanced,
        ui_toolbar_show_zoom_actions: t.show_zoom_actions,
        ui_toolbar_show_pages_section: t.show_pages_section,
        ui_toolbar_show_boards_section: t.show_boards_section,
        ui_toolbar_show_step_section: t.show_step_section,
        ui_toolbar_show_text_controls: t.show_text_controls,
        ui_toolbar_show_settings_section: t.show_settings_section,
    }
}

/// Whether `d` is the PresenterDraft filled from the configuration, field by field.
pub open spec fn presenter_draft_of(d: PresenterDraft, p: PresenterConfigModel) -> bool {
    &&& d.presenter_hide_status_bar == p.hide_status_bar
    &&& d.presenter_hide_toolbars == p.hide_toolbars
    &&& d.presenter_hide_tool_preview == p.hide_tool_preview
    &&& d.presenter_close_help_overlay == p.close_help_overlay
    &&& d.presenter_enable_click_highlight == p.enable_click_highlight
    &&& d.presenter_tool_behavior == p.tool_behavior
    &&& d.presenter_show_toast == p.show_toast
}

/// The presenter draft filled from the configuration.
pub fn presenter_draft_from_config(p: &PresenterConfigModel) -> (d: PresenterDraft)
    ensures
        presenter_draft_of(d, *p),
{
    PresenterDraft {
        presenter_hide_status_bar: p.hide_status_bar,
        presenter_hide_toolbars: p.hide_toolbars,
        presenter_hide_tool_preview: p.hide_tool_preview,
        presenter_close_help_overlay: p.close_help_overlay,
        presenter_enable_click_highlight: p.enable_click_highlight,
        presenter_tool_behavior: p.tool_behavior,
        presenter_show_toast: p.show_toast,
    }
}

/// Whether `d` is the CaptureDraft filled from the configuration, field by field.
pub open spec fn capture_draft_of(d: CaptureDraft, c: CaptureConfigModel) -> bool {
    &&& d.capture_enabled == c.enabled
    &&& d.capture_save_directory == c.save_directory
    &&& d.capture_filename_template == c.filename_template
    &&& d.capture_format == c.format
    &&& d.capture_copy_to_clipboard == c.copy_to_clipboard
    &&& d.capture_exit_after == c.exit_after_capture
}

/// The capture draft filled from the configuration.
pub fn capture_draft_from_config(c: &CaptureConfigModel) -> (d: CaptureDraft)
    ensures
        capture_draft_of(d, *c),
{
    CaptureDraft {
        capture_enabled: c.enabled,
        capture_save_directory: c.save_directory.clone(),
        capture_filename_template: c.filename_template.clone(),
        capture_format: c.format.clone(),
        capture_copy_to_clipboard: c.copy_to_clipboard,
        capture_exit_after: c.exit_after_capture,
    }
}

/// The history section of the configuration.
#[derive(Debug, Clone, Copy, PartialEq, Eq, Structural)]
pub struct HistoryConfigModel {
    pub undo_all_delay_ms: u64,
    pub redo_all_delay_ms: u64,
    pub custom_section_enabled: bool,
    pub custom_undo_delay_ms: u64,
    pub custom_redo_delay_ms: u64,
    pub custom_undo_steps: u64,
    pub custom_redo_steps: u64,
}

/// The performance section of the configuration.
#[derive(Debug, Clone, Copy, PartialEq, Eq, Structural)]
pub struct PerformanceConfigModel {
    pub buffer_count: u32,
    pub enable_vsync: bool,
    pub max_fps_no_vsync: u64,
    pub ui_animation_fps: u64,
}

/// The session section of the configuration.
#[derive(Debug, Clone)]
pub struct SessionConfigModel {
    pub persist_transparent: bool,
    pub persist_whiteboard: bool,
    pub persist_blackboard: bool,
    pub persist_history: bool,
    pub restore_tool_state: bool,
    pub per_output: bool,
    pub storage: SessionStorageModeOption,
    pub custom_directory: Option<String>,
    pub max_shapes_per_frame: u64,
    pub max_file_size_mb: u64,
    pub compress: SessionCompressionOption,
    pub auto_compress_threshold_kb: u64,
    pub max_persisted_undo_depth: Option<u64>,
    pub backup_retention: u64,
    pub autosave_enabled: bool,
    pub autosave_idle_ms: u64,
    pub autosave_interval_ms: u64,
    pub autosave_failure_backoff_ms: u64,
}

/// The decimal text of an optional number, or empty.
pub open spec fn decimal_or_empty(n: Option<u64>) -> Seq<char> {
    match n {
        Some(v) => decimal(v as nat),
        None => Seq::empty(),
    }
}

/// Whether `d` is the HistoryDraft filled from the configuration, field by field.
pub open spec fn history_draft_of(d: HistoryDraft, h: HistoryConfigModel) -> bool {
    &&& d.history_undo_all_delay_ms@ == decimal(h.undo_all_delay_ms as nat)
    &&& d.history_redo_all_delay_ms@ == decimal(h.redo_all_delay_ms as nat)
    &&& d.history_custom_section_enabled == h.custom_section_enabled
    &&& d.history_custom_undo_delay_ms@ == decimal(h.custom_undo_delay_ms as nat)
    &&& d.history_custom_redo_delay_ms@ == decimal(h.custom_redo_delay_ms as nat)
    &&& d.history_custom_undo_steps@ == decimal(h.custom_undo_steps as nat)
    &&& d.history_custom_redo_steps@ == decimal(h.custom_redo_steps as nat)
}

/// The history draft filled from the configuration.
pub fn history_draft_from_config(h: &HistoryConfigModel) -> (d: HistoryDraft)
    ensures
        history_draft_of(d, *h),
{
    HistoryDraft {
        history_undo_all_delay_ms: decimal_string_u64(h.undo_all_delay_ms),
        history_redo_all_delay_ms: decimal_string_u64(h.redo_all_delay_ms),
        history_custom_section_enabled: h.custom_section_enabled,
        history_custom_undo_delay_ms: decimal_string_u64(h.custom_undo_delay_ms),
        history_custom_redo_delay_ms: decimal_string_u64(h.custom_redo_delay_ms),
        history_custom_undo_steps: decimal_string_u64(h.custom_undo_steps),
        history_custom_redo_steps: decimal_string_u64(h.custom_redo_steps),
    }
}

/// Whether `d` is the PerformanceDraft filled from the configuration, field by field.
pub open spec fn performance_draft_of(d: PerformanceDraft, p: PerformanceConfigModel) -> bool {
    &&& d.performance_buffer_count == p.buffer_count
    &&& d.performance_enable_vsync == p.enable_vsync
    &&& d.performance_max_fps_no_vsync@ == decimal(p.max_fps_no_vsync as nat)
    &&& d.performance_ui_animation_fps@ == decimal(p.ui_animation_fps as nat)
}

/// The performance draft filled from the configuration.
pub fn performance_draft_from_config(p: &PerformanceConfigModel) -> (d: PerformanceDraft)
    ensures
        performance_draft_of(d, *p),
{
    PerformanceDraft {
        performance_buffer_count: p.buffer_count,
        performance_enable_vsync: p.enable_vsync,
        performance_max_fps_no_vsync: decimal_string_u64(p.max_fps_no_vsync),
        performance_ui_animation_fps: decimal_string_u64(p.ui_animation_fps),
    }
}

/// Whether `d` is the SessionDraft filled from the configuration, field by field.
pub open spec fn session_draft_of(d: SessionDraft, c: SessionConfigModel) -> bool {
    &&& d.session_persist_transparent == c.persist_transparent
    &&& d.session_persist_whiteboard == c.persist_whiteboard
    &&& d.session_persist_blackboard == c.persist_blackboard
    &&& d.session_persist_history == c.persist_history
    &&& d.session_restore_tool_state == c.restore_tool_state
    &&& d.session_per_output == c.per_output
    &&& d.session_storage_mode == c.storage
    &&& d.session_custom_directory@ == text_or_empty(c.custom_directory)
    &&& d.session_max_shapes_per_frame@ == decimal(c.max_shapes_per_frame as nat)
    &&& d.session_max_file_size_mb@ == decimal(c.max_file_size_mb as nat)
    &&& d.session_compression == c.compress
    &&& d.session_auto_compress_threshold_kb@ == decimal(c.auto_compress_threshold_kb as nat)
    &&& d.session_max_persisted_undo_depth@ == decimal_or_empty(c.max_persisted_undo_depth)
    &&& d.session_backup_retention@ == decimal(c.backup_retention as nat)
    &&& d.session_autosave_enabled == c.autosave_enabled
    &&& d.session_autosave_idle_ms@ == decimal(c.autosave_idle_ms as nat)
    &&& d.session_autosave_interval_ms@ == decimal(c.autosave_interval_ms as nat)
    &&& d.session_autosave_failure_backoff_ms@ == decimal(c.autosave_failure_backoff_ms as nat)
}

/// The session draft filled from the configuration: an absent directory or undo depth
/// becomes empty text.
pub fn session_draft_from_config(c: &SessionConfigModel) -> (d: SessionDraft)
    ensures
        session_draft_of(d, *c),
{
    let directory = match &c.custom_directory {
        Some(dir) => dir.clone(),
        None => String::new(),
    };
    let depth = match c.max_persisted_undo_depth {
        Some(n) => decimal_string_u64(n),
        None => String::new(),
    };
    SessionDraft {
        session_persist_transparent: c.persist_transparent,
        session_persist_whiteboard: c.persist_whiteboard,
        session_persist_blackboard: c.persist_blackboard,
        session_persist_history: c.persist_history,
        session_restore_tool_state: c.restore_tool_state,
        session_per_output: c.per_output,
        session_storage_mode: c.storage,
        session_custom_directory: directory,
        session_max_shapes_per_frame: decimal_string_u64(c.max_shapes_per_frame),
        session_max_file_size_mb: decimal_string_u64(c.max_file_size_mb),
        session_compression: c.compress,
        session_auto_compress_threshold_kb: decimal_string_u64(c.auto_compress_threshold_kb),
        session_max_persisted_undo_depth: depth,
        session_backup_retention: decimal_string_u64(c.backup_retention),
        session_autosave_enabled: c.autosave_enabled,
        session_autosave_idle_ms: decimal_string_u64(c.autosave_idle_ms),
        session_autosave_interval_ms: decimal_string_u64(c.autosave_interval_ms),
        session_autosave_failure_backoff_ms: decimal_string_u64(c.autosave_failure_backoff_ms),
    }
}

/// The plain fields of the drawing section of the configuration.
#[derive(Debug, Clone)]
pub struct DrawingConfigModel {
    pub default_eraser_mode: EraserModeOption,
    pub hit_test_linear_threshold: u64,
    pub undo_stack_limit: u64,
    pub font_family: String,
    pub text_background_enabled: bool,
    pub default_fill_enabled: bool,
    pub drag_tool: ToolOption,
    pub shift_drag_tool: ToolOption,
    pub ctrl_drag_tool: ToolOption,
    pub ctrl_shift_drag_tool: ToolOption,
    pub tab_drag_tool: ToolOption,
}

/// The plain fields of the whole configuration, section by section.
#[derive(Debug, Clone)]
pub struct ConfigModel {
    pub drawing: DrawingConfigModel,
    pub arrow_head_at_end: bool,
    pub history: HistoryConfigModel,
    pub performance: PerformanceConfigModel,
    pub ui: UiConfigModel,
    pub presenter: PresenterConfigModel,
    pub capture: CaptureConfigModel,
    pub session: SessionConfigModel,
}

/// The draft fields whose conversion the caller performs: floating-point settings already
/// formatted as text, colours as component text, and the font style and weight choices.
#[derive(Debug, Clone)]
pub struct PreparedFields {
    pub drawing_color: ColorInput,
    pub drawing_default_thickness: String,
    pub drawing_default_eraser_size: String,
    pub drawing_default_font_size: String,
    pub drawing_marker_opacity: String,
    pub drawing_hit_test_tolerance: String,
    pub font_style_option: FontStyleOption,
    pub font_style: String,
    pub font_weight_option: FontWeightOption,
    pub font_weight: String,
    pub arrow_length: String,
    pub arrow_angle: String,
    pub toolbar_offsets: ToolbarOffsetTexts,
    pub status_font_size: String,
    pub status_padding: String,
    pub status_bar_bg_color: ColorQuadInput,
    pub status_bar_text_color: ColorQuadInput,
    pub status_dot_radius: String,
    pub click_highlight_radius: String,
    pub click_highlight_outline_thickness: String,
    pub click_highlight_fill_color: ColorQuadInput,
    pub click_highlight_outline_color: ColorQuadInput,
    pub help_font_size: String,
    pub help_line_height: String,
    pub help_padding: String,
    pub help_bg_color: ColorQuadInput,
    pub help_border_color: ColorQuadInput,
    pub help_border_width: String,
    pub help_text_color: ColorQuadInput,
}

/// Whether `d` is the drawing draft filled from the configuration, field by field.
pub open spec fn drawing_draft_of(d: DrawingDraft, c: DrawingConfigModel, p: PreparedFields) -> bool {
    &&& d.drawing_color == p.drawing_color
    &&& d.drawing_default_thickness == p.drawing_default_thickness
    &&& d.drawing_default_eraser_size == p.drawing_default_eraser_size
    &&& d.drawing_default_eraser_mode == c.default_eraser_mode
    &&& d.drawing_default_font_size == p.drawing_default_font_size
    &&& d.drawing_marker_opacity == p.drawing_marker_opacity
    &&& d.drawing_hit_test_tolerance == p.drawing_hit_test_tolerance
    &&& d.drawing_hit_test_linear_threshold@ == decimal(c.hit_test_linear_threshold as nat)
    &&& d.drawing_undo_stack_limit@ == decimal(c.undo_stack_limit as nat)
    &&& d.drawing_font_family == c.font_family
    &&& d.drawing_font_weight == p.font_weight
    &&& d.drawing_font_style == p.font_style
    &&& d.drawing_text_background_enabled == c.text_background_enabled
    &&& d.drawing_default_fill_enabled == c.default_fill_enabled
    &&& d.drawing_drag_tool == c.drag_tool
    &&& d.drawing_shift_drag_tool == c.shift_drag_tool
    &&& d.drawing_ctrl_drag_tool == c.ctrl_drag_tool
    &&& d.drawing_ctrl_shift_drag_tool == c.ctrl_shift_drag_tool
    &&& d.drawing_tab_drag_tool == c.tab_drag_tool
    &&& d.drawing_font_style_option == p.font_style_option
    &&& d.drawing_font_weight_option == p.font_weight_option
}

/// Whether `d` is the status draft filled from the configuration, field by field.
pub open spec fn status_draft_of(d: StatusDraft, c: UiConfigModel, p: PreparedFields) -> bool {
    &&& d.ui_status_position == c.status_bar_position
    &&& d.status_font_size == p.status_font_size
    &&& d.status_padding == p.status_padding
    &&& d.status_bar_bg_color == p.status_bar_bg_color
    &&& d.status_bar_text_color == p.status_bar_text_color
    &&& d.status_dot_radius == p.status_dot_radius
}

/// Whether `d` is the click-highlight draft filled from the configuration, field by field.
pub open spec fn click_highlight_draft_of(d: ClickHighlightDraft, c: UiConfigModel, p: PreparedFields) -> bool {
    &&& d.click_highlight_enabled == c.click_highlight_enabled
    &&& d.click_highlight_show_on_highlight_tool == c.click_highlight_show_on_highlight_tool
    &&& d.click_highlight_use_pen_color == c.click_highlight_use_pen_color
    &&& d.click_highlight_radius == p.click_highlight_radius
    &&& d.click_highlight_outline_thickness == p.click_highlight_outline_thickness
    &&& d.click_highlight_duration_ms@ == decimal(c.click_highlight_duration_ms as nat)
    &&& d.click_highlight_fill_color == p.click_highlight_fill_color
    &&& d.click_highlight_outline_color == p.click_highlight_outline_color
}

/// Whether `d` is the help-overlay draft filled from the configuration, field by field.
pub open spec fn help_draft_of(d: HelpDraft, c: UiConfigModel, p: PreparedFields) -> bool {
    &&& d.help_font_family == c.help_font_family
    &&& d.help_font_size == p.help_font_size
    &&& d.help_line_height == p.help_line_height
    &&& d.help_padding == p.help_padding
    &&& d.help_bg_color == p.help_bg_color
    &&& d.help_border_color == p.help_border_color
    &&& d.help_border_width == p.help_border_width
    &&& d.help_text_color == p.help_text_color
    &&& d.help_context_filter == c.help_overlay_context_filter
}

/// The whole draft filled from the configuration: each section as its own function fills
/// it, the prepared fields taken as they are, and the boards draft as given.
pub fn draft_from_config(c: &ConfigModel, p: PreparedFields, boards: BoardsDraft) -> (d: ConfigDraft)
    ensures
        drawing_draft_of(d.drawing, c.drawing, p),
        d.arrow.arrow_length == p.arrow_length,
        d.arrow.arrow_angle == p.arrow_angle,
        d.arrow.arrow_head_at_end == c.arrow_head_at_end,
        history_draft_of(d.history, c.history),
        performance_draft_of(d.performance, c.performance),
        ui_draft_of(d.ui, c.ui),
        toolbar_draft_of(d.toolbar, c.ui.toolbar, p.toolbar_offsets),
        toolbar_sections_of(d.toolbar_sections, c.ui.toolbar),
        d.ui_toolbar_mode_overrides == spec_overrides_draft(c.ui.toolbar_mode_overrides),
        status_draft_of(d.status, c.ui, p),
        click_highlight_draft_of(d.click_highlight, c.ui, p),
        presenter_draft_of(d.presenter, c.presenter),
        help_draft_of(d.help, c.ui, p),
        d.boards == boards,
        capture_draft_of(d.capture, c.capture),
        session_draft_of(d.session, c.session),
{
    let drawing = DrawingDraft {
        drawing_color: p.drawing_color,
        drawing_default_thickness: p.drawing_default_thickness,
        drawing_default_eraser_size: p.drawing_default_eraser_size,
        drawing_default_eraser_mode: c.drawing.default_eraser_mode,
        drawing_default_font_size: p.drawing_default_font_size,
        drawing_marker_opacity: p.drawing_marker_opacity,
        drawing_hit_test_tolerance: p.drawing_hit_test_tolerance,
        drawing_hit_test_linear_threshold: decimal_string_u64(c.drawing.hit_test_linear_threshold),
        drawing_undo_stack_limit: decimal_string_u64(c.drawing.undo_stack_limit),
        drawing_font_family: c.drawing.font_family.clone(),
        drawing_font_weight: p.font_weight,
        drawing_font_style: p.font_style,
        drawing_text_background_enabled: c.drawing.text_background_enabled,
        drawing_default_fill_enabled: c.drawing.default_fill_enabled,
        drawing_drag_tool: c.drawing.drag_tool,
        drawing_shift_drag_tool: c.drawing.shift_drag_tool,
        drawing_ctrl_drag_tool: c.drawing.ctrl_drag_tool,
        drawing_ctrl_shift_drag_tool: c.drawing.ctrl_shift_drag_tool,
        drawing_tab_drag_tool: c.drawing.tab_drag_tool,
        drawing_font_style_option: p.font_style_option,
        drawing_font_weight_option: p.font_weight_option,
    };
    let status = StatusDraft {
        ui_status_position: c.ui.status_bar_position,
        status_font_size: p.status_font_size,
        status_padding: p.status_padding,
        status_bar_bg_color: p.status_bar_bg_color,
        status_bar_text_color: p.status_bar_text_color,
        status_dot_radius: p.status_dot_radius,
    };
    let click_highlight = ClickHighlightDraft {
        click_highlight_enabled: c.ui.click_highlight_enabled,
        click_highlight_show_on_highlight_tool: c.ui.click_highlight_show_on_highlight_tool,
        click_highlight_use_pen_color: c.ui.click_highlight_use_pen_color,
        click_highlight_radius: p.click_highlight_radius,
        click_highlight_outline_thickness: p.click_highlight_outline_thickness,
        click_highlight_duration_ms: decimal_string_u64(c.ui.click_highlight_duration_ms),
        click_highlight_fill_color: p.click_highlight_fill_color,
        click_highlight_outline_color: p.click_highlight_outline_color,
    };
    let help = HelpDraft {
        help_font_family: c.ui.help_font_family.clone(),
        help_font_size: p.help_font_size,
        help_line_height: p.help_line_height,
        help_padding: p.help_padding,
        help_bg_color: p.help_bg_color,
        help_border_color: p.help_border_color,
        help_border_width: p.help_border_width,
        help_text_color: p.help_text_color,
        help_context_filter: c.ui.help_overlay_context_filter,
    };
    ConfigDraft {
        drawing,
        arrow: ArrowDraft {
            arrow_length: p.arrow_length,
            arrow_angle: p.arrow_angle,
            arrow_head_at_end: c.arrow_head_at_end,
        },
        history: history_draft_from_config(&c.history),
        performance: performance_draft_from_config(&c.performance),
        ui: ui_draft_from_config(&c.ui),
        toolbar: toolbar_draft_from_config(&c.ui.toolbar, p.toolbar_offsets),
        toolbar_sections: toolbar_sections_from_config(&c.ui.toolbar),
        ui_toolbar_mode_overrides: overrides_draft_from_config(&c.ui.toolbar_mode_overrides),
        status,
        click_highlight,
        presenter: presenter_draft_from_config(&c.presenter),
        help,
        boards,
        capture: capture_draft_from_config(&c.capture),
        session: session_draft_from_config(&c.session),
    }
}

pub open spec fn is_digit(c: char) -> bool {
    '0' <= c && c <= '9'
}

/// The value of a string of decimal digits.
pub open spec fn digits_value(s: Seq<char>) -> nat
    decreases s.len(),
{
    if s.len() == 0 {
        0
    } else {
        digits_value(s.drop_last()) * 10 + ((s.last() as nat) - 48) as nat
    }
}

/// The digits of a whole-number field: its trimmed text, without one leading `+`.
pub open spec fn number_digits(text: Seq<char>) -> Seq<char> {
    let t = trim(text);
    if t.len() > 0 && t[0] == '+' {
        t.skip(1)
    } else {
        t
    }
}

/// A whole-number field read as a 64-bit number: its trimmed text, an optional `+`, then
/// one or more decimal digits whose value fits.
pub open spec fn spec_parse_u64(text: Seq<char>) -> Option<u64> {
    let d = number_digits(text);
    if d.len() > 0 && (forall|i: int| 0 <= i < d.len() ==> #[trigger] is_digit(d[i])) && digits_value(d)
        <= u64::MAX {
        Some(digits_value(d) as u64)
    } else {
        None
    }
}

proof fn lemma_prefix_value_bounded(s: Seq<char>, i: int)
    requires
        0 <= i <= s.len(),
        forall|k: int| 0 <= k < s.len() ==> #[trigger] is_digit(s[k]),
    ensures
        digits_value(s.take(i)) <= digits_value(s),
    decreases s.len(),
{
    if i < s.len() {
        let t = s.drop_last();
        assert(t.take(i) == s.take(i));
        lemma_prefix_value_bounded(t, i);
    } else {
        assert(s.take(i) == s);
    }
}

/// Reads a whole-number field (see `spec_parse_u64`).
pub fn parse_u64_text(text: &String) -> (r: Option<u64>)
    ensures
        r == spec_parse_u64(text@),
{
    let v = chars_of(text.as_str());
    let (lo, hi) = trim_range(&v, 0, v.len());
    assert(v@.subrange(0, v@.len() as int) == v@);
    let ghost t = trim(v@);
    let mut start = lo;
    if lo < hi && v[lo] == '+' {
        start = lo + 1;
    }
    let ghost d = v@.subrange(start as int, hi as int);
    assert(d == number_digits(text@));
    if start >= hi {
        return None;
    }
    let mut acc: u64 = 0;
    let mut i: usize = start;
    while i < hi
        invariant
            start <= i <= hi <= v@.len(),
            d == v@.subrange(start as int, hi as int),
            d == number_digits(text@),
            d.len() == hi - start,
            d.len() > 0,
            forall|k: int| 0 <= k < i - start ==> #[trigger] is_digit(d[k]),
            acc as nat == digits_value(d.take(i - start)),
        decreases hi - i,
    {
        let c = v[i];
        if !('0' <= c && c <= '9') {
            assert(!is_digit(d[i - start]));
            return None;
        }
        let digit: u64 = ((c as u32) - 48) as u64;
        proof {
            let p = d.take(i - start + 1);
            assert(p.drop_last() == d.take(i - start));
            assert(p.last() == c);
        }
        match acc.checked_mul(10) {
            Some(m) => match m.checked_add(digit) {
                Some(n) => {
                    acc = n;
                },
                None => {
                    proof {
                        let p = d.take(i - start + 1);
                        assert(digits_value(p) > u64::MAX);
                        lemma_digit_run_value(d, i - start, hi - start);
                    }
                    return None;
                },
            },
            None => {
                proof {
                    let p = d.take(i - start + 1);
                    assert(digits_value(p) > u64::MAX) by (nonlinear_arith)
                        requires
                            digits_value(p) == acc * 10 + digit,
                            acc * 10 > u64::MAX,
                    ;
                    lemma_digit_run_value(d, i - start, hi - start);
                }
                return None;
            },
        }
        i += 1;
    }
    assert(d.take(hi - start) == d);
    Some(acc)
}

/// When the first `i + 1` characters are digits and already exceed the 64-bit range, the
/// field is not a 64-bit number, whatever follows.
proof fn lemma_digit_run_value(d: Seq<char>, i: int, n: int)
    requires
        n == d.len(),
        0 <= i < n,
        forall|k: int| 0 <= k <= i ==> #[trigger] is_digit(d[k]),
        digits_value(d.take(i + 1)) > u64::MAX,
    ensures
        !((forall|k: int| 0 <= k < d.len() ==> #[trigger] is_digit(d[k])) && digits_value(d) <= u64::MAX),
{
    if forall|k: int| 0 <= k < d.len() ==> #[trigger] is_digit(d[k]) {
        lemma_prefix_value_bounded(d, i + 1);
    }
}

/// The trimmed text of a field.
pub fn trimmed(s: &String) -> (r: String)
    ensures
        r@ == trim(s@),
{
    let v = chars_of(s.as_str());
    let (lo, hi) = trim_range(&v, 0, v.len());
    assert(v@.subrange(0, v@.len() as int) == v@);
    let mut out: Vec<char> = Vec::new();
    let mut i: usize = lo;
    while i < hi
        invariant
            lo <= i <= hi <= v@.len(),
            out@ == v@.subrange(lo as int, i as int),
        decreases hi - i,
    {
        out.push(v[i]);
        i += 1;
    }
    string_of(&out)
}

/// The preferred output a draft names: none for blank text, else the trimmed name.
pub open spec fn preferred_output_of(text: Seq<char>) -> Option<Seq<char>> {
    if trim(text).len() == 0 {
        None
    } else {
        Some(trim(text))
    }
}

pub open spec fn opt_text(s: Option<String>) -> Option<Seq<char>> {
    match s {
        Some(t) => Some(t@),
        None => None,
    }
}

/// The keys of the durations that do not read, in the order they are written.
pub open spec fn failed_keys(toast_text: Seq<char>, click_text: Seq<char>) -> Seq<Seq<char>> {
    (if spec_parse_u64(toast_text) is None {
        seq!["ui.command_palette_toast_duration_ms"@]
    } else {
        Seq::empty()
    }) + (if spec_parse_u64(click_text) is None {
        seq!["ui.click_highlight.duration_ms"@]
    } else {
        Seq::empty()
    })
}

fn read_u64_field(text: &String, name: &str, current: u64, errors: &mut Vec<FieldError>) -> (v: u64)
    ensures
        v == match spec_parse_u64(text@) {
            Some(n) => n,
            None => current,
        },
        spec_parse_u64(text@) is Some ==> final(errors)@ == old(errors)@,
        spec_parse_u64(text@) is None ==> final(errors)@.len() == old(errors)@.len() + 1
            && final(errors)@.drop_last() == old(errors)@ && final(errors)@.last().field@ == name@,
{
    match parse_u64_text(text) {
        Some(n) => n,
        None => {
            errors.push(FieldError { field: String::from_str(name) });
            current
        },
    }
}

/// Writes the plain user-interface fields of a draft into the configuration: the flags and
/// choices (the toolbar mode overrides among them) are copied, the preferred output is the trimmed name (none when blank), the
/// focus-loss behaviour follows the keep flag, the help font family is trimmed, and the two
/// durations are read as whole numbers. A duration that does not read keeps its old value
/// and adds an error naming its key; otherwise no error is added.
pub fn apply_ui_plain(draft: &ConfigDraft, config: &mut UiConfigModel, errors: &mut Vec<FieldError>)
    ensures
        final(config).show_status_bar == draft.ui.ui_show_status_bar,
        final(config).show_status_board_badge == draft.ui.ui_show_status_board_badge,
        final(config).show_status_page_badge == draft.ui.ui_show_status_page_badge,
        final(config).show_floating_badge_always == draft.ui.ui_show_page_badge_with_status_bar,
        final(config).show_frozen_badge == draft.ui.ui_show_frozen_badge,
        final(config).show_capabilities_warning == draft.ui.ui_show_capabilities_warning,
        final(config).context_menu_enabled == draft.ui.ui_context_menu_enabled,
        opt_text(final(config).preferred_output) == preferred_output_of(draft.ui.ui_preferred_output@),
        final(config).xdg_focus_loss_behavior == if draft.ui.ui_xdg_keep_on_focus_loss {
            XdgFocusLossBehavior::Stay
        } else {
            XdgFocusLossBehavior::Exit
        },
        final(config).command_palette_toast_duration_ms == match spec_parse_u64(
            draft.ui.ui_command_palette_toast_duration_ms@,
        ) {
            Some(n) => n,
            None => old(config).command_palette_toast_duration_ms,
        },
        final(config).toolbar == (ToolbarConfigModel {
            top_pinned: draft.toolbar.ui_toolbar_top_pinned,
            side_pinned: draft.toolbar.ui_toolbar_side_pinned,
            use_icons: draft.toolbar.ui_toolbar_use_icons,
            show_more_colors: draft.toolbar.ui_toolbar_show_more_colors,
            show_preset_toasts: draft.toolbar.ui_toolbar_show_preset_toasts,
            layout_mode: draft.toolbar.ui_toolbar_layout_mode,
            show_presets: draft.toolbar_sections.ui_toolbar_show_presets,
            show_actions_section: draft.toolbar_sections.ui_toolbar_show_actions_section,
            show_actions_advanced: draft.toolbar_sections.ui_toolbar_show_actions_advanced,
            show_zoom_actions: draft.toolbar_sections.ui_toolbar_show_zoom_actions,
            show_pages_section: draft.toolbar_sections.ui_toolbar_show_pages_section,
            show_boards_section: draft.toolbar_sections.ui_toolbar_show_boards_section,
            show_step_section: draft.toolbar_sections.ui_toolbar_show_step_section,
            show_text_controls: draft.toolbar_sections.ui_toolbar_show_text_controls,
            show_settings_section: draft.toolbar_sections.ui_toolbar_show_settings_section,
            show_delay_sliders: draft.toolbar.ui_toolbar_show_delay_sliders,
            show_marker_opacity_section: draft.toolbar.ui_toolbar_show_marker_opacity_section,
            show_tool_preview: draft.toolbar.ui_toolbar_show_tool_preview,
            force_inline: draft.toolbar.ui_toolbar_force_inline,
        }),
        final(config).status_bar_position == draft.status.ui_status_position,
        final(config).toolbar_mode_overrides == spec_overrides_model(draft.ui_toolbar_mode_overrides),
        final(config).click_highlight_enabled == draft.click_highlight.click_highlight_enabled,
        final(config).click_highlight_show_on_highlight_tool == draft.click_highlight.click_highlight_show_on_highlight_tool,
        final(config).click_highlight_use_pen_color == draft.click_highlight.click_highlight_use_pen_color,
        final(config).click_highlight_duration_ms == match spec_parse_u64(draft.click_highlight.click_highlight_duration_ms@) {
            Some(n) => n,
            None => old(config).click_highlight_duration_ms,
        },
        final(config).help_font_family@ == trim(draft.help.help_font_family@),
        final(config).help_overlay_context_filter == draft.help.help_context_filter,
        final(errors)@.len() == old(errors)@.len() + failed_keys(
            draft.ui.ui_command_palette_toast_duration_ms@,
            draft.click_highlight.click_highlight_duration_ms@,
        ).len(),
        final(errors)@.take(old(errors)@.len() as int) == old(errors)@,
        forall|k: int|
            0 <= k < failed_keys(draft.ui.ui_command_palette_toast_duration_ms@, draft.click_highlight.click_highlight_duration_ms@).len()
                ==> #[trigger] final(errors)@[old(errors)@.len() + k].field@ == failed_keys(
                draft.ui.ui_command_palette_toast_duration_ms@,
                draft.click_highlight.click_highlight_duration_ms@,
            )[k],
{
    config.show_status_bar = draft.ui.ui_show_status_bar;
    config.show_status_board_badge = draft.ui.ui_show_status_board_badge;
    config.show_status_page_badge = draft.ui.ui_show_status_page_badge;
    config.show_floating_badge_always = draft.ui.ui_show_page_badge_with_status_bar;
    config.show_frozen_badge = draft.ui.ui_show_frozen_badge;
    config.show_capabilities_warning = draft.ui.ui_show_capabilities_warning;
    config.context_menu_enabled = draft.ui.ui_context_menu_enabled;
    let preferred = trimmed(&draft.ui.ui_preferred_output);
    config.preferred_output = if preferred.as_str().unicode_len() == 0 {
        None
    } else {
        Some(preferred)
    };
    config.xdg_focus_loss_behavior = if draft.ui.ui_xdg_keep_on_focus_loss {
        XdgFocusLossBehavior::Stay
    } else {
        XdgFocusLossBehavior::Exit
    };
    config.command_palette_toast_duration_ms = read_u64_field(
        &draft.ui.ui_command_palette_toast_duration_ms,
        "ui.command_palette_toast_duration_ms",
        config.command_palette_toast_duration_ms,
        errors,
    );
    config.toolbar = ToolbarConfigModel {
        top_pinned: draft.toolbar.ui_toolbar_top_pinned,
        side_pinned: draft.toolbar.ui_toolbar_side_pinned,
        use_icons: draft.toolbar.ui_toolbar_use_icons,
        show_more_colors: draft.toolbar.ui_toolbar_show_more_colors,
        show_preset_toasts: draft.toolbar.ui_toolbar_show_preset_toasts,
        layout_mode: draft.toolbar.ui_toolbar_layout_mode,
        show_presets: draft.toolbar_sections.ui_toolbar_show_presets,
        show_actions_section: draft.toolbar_sections.ui_toolbar_show_actions_section,
        show_actions_advanced: draft.toolbar_sections.ui_toolbar_show_actions_advanced,
        show_zoom_actions: draft.toolbar_sections.ui_toolbar_show_zoom_actions,
        show_pages_section: draft.toolbar_sections.ui_toolbar_show_pages_section,
        show_boards_section: draft.toolbar_sections.ui_toolbar_show_boards_section,
        show_step_section: draft.toolbar_sections.ui_toolbar_show_step_section,
        show_text_controls: draft.toolbar_sections.ui_toolbar_show_text_controls,
        show_settings_section: draft.toolbar_sections.ui_toolbar_show_settings_section,
        show_delay_sliders: draft.toolbar.ui_toolbar_show_delay_sliders,
        show_marker_opacity_section: draft.toolbar.ui_toolbar_show_marker_opacity_section,
        show_tool_preview: draft.toolbar.ui_toolbar_show_tool_preview,
        force_inline: draft.toolbar.ui_toolbar_force_inline,
    };
    config.toolbar_mode_overrides = overrides_from_draft(&draft.ui_toolbar_mode_overrides);
    config.status_bar_position = draft.status.ui_status_position;
    config.click_highlight_enabled = draft.click_highlight.click_highlight_enabled;
    config.click_highlight_show_on_highlight_tool = draft.click_highlight.click_highlight_show_on_highlight_tool;
    config.click_highlight_use_pen_color = draft.click_highlight.click_highlight_use_pen_color;
    config.click_highlight_duration_ms = read_u64_field(
        &draft.click_highlight.click_highlight_duration_ms,
        "ui.click_highlight.duration_ms",
        config.click_highlight_duration_ms,
        errors,
    );
    config.help_font_family = trimmed(&draft.help.help_font_family);
    config.help_overlay_context_filter = draft.help.help_context_filter;
}

proof fn lemma_decimal_value(n: nat)
    ensures
        digits_value(decimal(n)) == n,
    decreases n,
{
    if n < 10 {
        let d = decimal(n);
        assert(d.drop_last() =~= Seq::<char>::empty());
        assert(d.last() == digit_char(n));
        assert((digit_char(n) as nat) == n + 48);
        assert(digits_value(d) == digits_value(d.drop_last()) * 10 + ((d.last() as nat) - 48) as nat);
    } else {
        let d = decimal(n);
        lemma_decimal_value(n / 10);
        assert(d.drop_last() == decimal(n / 10));
        assert(d.last() == digit_char(n % 10));
        assert((digit_char(n % 10) as nat) == n % 10 + 48);
        assert(digits_value(d) == digits_value(d.drop_last()) * 10 + ((d.last() as nat) - 48) as nat);
        assert((n / 10) * 10 + n % 10 == n);
    }
}

/// A whole number written in decimal reads back as itself: the configurator's durations
/// survive filling the draft and writing it back.
pub proof fn lemma_number_round_trip(n: u64)
    ensures
        spec_parse_u64(decimal(n as nat)) == Some(n),
{
    let d = decimal(n as nat);
    lemma_decimal_digits(n as nat);
    lemma_decimal_value(n as nat);
    assert(!is_whitespace(d[0]));
    assert(trim_start(d) == d);
    assert(!is_whitespace(d.last()));
    assert(trim_end(d) == d);
    assert(number_digits(d) == d);
    assert forall|i: int| 0 <= i < d.len() implies #[trigger] is_digit(d[i]) by {}
}

/// The preferred output survives filling the draft and writing it back, when it is absent or
/// a name without surrounding whitespace.
pub proof fn lemma_preferred_output_round_trip(name: Option<String>)
    requires
        name matches Some(t) ==> t@.len() > 0 && !is_whitespace(t@[0]) && !is_whitespace(t@.last()),
    ensures
        preferred_output_of(text_or_empty(name)) == opt_text(name),
{
    match name {
        Some(t) => {
            assert(trim_start(t@) == t@);
            assert(trim_end(t@) == t@);
        },
        None => {},
    }
}

} // verus!
