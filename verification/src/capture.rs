//! Screenshot capture flow: which capture an action asks for, the bookkeeping of a capture
//! in flight, what its result asks of the overlay, and the freeze toggle.
use vstd::prelude::*;
use crate::overlay::{
    suppression_after_exit, ExitAfterCaptureMode, OverlaySuppression, ShowOverlay, StateData,
};
use crate::presentation::PresentationMode;
use crate::selection::{UiToast, UiToastKind};

verus! {

/// The capture actions of the keymap.
#[derive(Debug, Clone, Copy, PartialEq, Eq, Structural)]
pub enum CaptureAction {
    CaptureFullScreen,
    CaptureActiveWindow,
    CaptureSelection,
    CaptureClipboardFull,
    CaptureFileFull,
    CaptureClipboardSelection,
    CaptureFileSelection,
    CaptureClipboardRegion,
    CaptureFileRegion,
}

/// What to capture. A selection is chosen interactively, so its rectangle starts empty.
#[derive(Debug, Clone, Copy, PartialEq, Eq, Structural)]
pub enum CaptureType {
    FullScreen,
    ActiveWindow,
    Selection { x: i32, y: i32, width: u32, height: u32 },
}

/// Where a capture goes.
#[derive(Debug, Clone, Copy, PartialEq, Eq, Structural)]
pub enum CaptureDestination {
    ClipboardOnly,
    FileOnly,
    ClipboardAndFile,
}

/// Where and how a captured image is saved.
#[derive(Debug, Clone)]
pub struct FileSaveConfig {
    pub save_directory: String,
    pub filename_template: String,
    pub format: String,
}

/// The capture settings of the configuration; the save directory is already expanded.
#[derive(Debug, Clone)]
pub struct CaptureConfig {
    pub enabled: bool,
    pub copy_to_clipboard: bool,
    pub save_directory: String,
    pub filename_template: String,
    pub format: String,
}

/// A capture waiting for the overlay to be hidden.
#[derive(Debug, Clone)]
pub struct CaptureRequest {
    pub capture_type: CaptureType,
    pub destination: CaptureDestination,
    pub save_config: Option<FileSaveConfig>,
}

pub open spec fn empty_selection() -> CaptureType {
    CaptureType::Selection { x: 0, y: 0, width: 0, height: 0 }
}

/// The capture and destination an action asks for; the plain capture actions go to the
/// configured default destination.
pub open spec fn spec_capture_target(action: CaptureAction, copy_to_clipboard: bool) -> (CaptureType, CaptureDestination) {
    let default_destination = if copy_to_clipboard {
        CaptureDestination::ClipboardAndFile
    } else {
        CaptureDestination::FileOnly
    };
    match action {
        CaptureAction::CaptureFullScreen => (CaptureType::FullScreen, default_destination),
        CaptureAction::CaptureActiveWindow => (CaptureType::ActiveWindow, default_destination),
        CaptureAction::CaptureSelection => (empty_selection(), default_destination),
        CaptureAction::CaptureClipboardFull => (CaptureType::FullScreen, CaptureDestination::ClipboardOnly),
        CaptureAction::CaptureFileFull => (CaptureType::FullScreen, CaptureDestination::FileOnly),
        CaptureAction::CaptureClipboardSelection => (empty_selection(), CaptureDestination::ClipboardOnly),
        CaptureAction::CaptureFileSelection => (empty_selection(), CaptureDestination::FileOnly),
        CaptureAction::CaptureClipboardRegion => (empty_selection(), CaptureDestination::ClipboardOnly),
        CaptureAction::CaptureFileRegion => (empty_selection(), CaptureDestination::FileOnly),
    }
}

/// The actions that name the clipboard as their only destination.
pub open spec fn is_clipboard_action(a: CaptureAction) -> bool {
    a == CaptureAction::CaptureClipboardFull || a == CaptureAction::CaptureClipboardSelection || a
        == CaptureAction::CaptureClipboardRegion
}

/// The actions that name a file as their only destination.
pub open spec fn is_file_action(a: CaptureAction) -> bool {
    a == CaptureAction::CaptureFileFull || a == CaptureAction::CaptureFileSelection || a
        == CaptureAction::CaptureFileRegion
}

/// The actions that ask for an interactively chosen part of the screen.
pub open spec fn is_selection_action(a: CaptureAction) -> bool {
    a == CaptureAction::CaptureSelection || a == CaptureAction::CaptureClipboardSelection || a
        == CaptureAction::CaptureFileSelection || a == CaptureAction::CaptureClipboardRegion || a
        == CaptureAction::CaptureFileRegion
}

/// Where a capture goes and what it captures follow the action's name: clipboard actions
/// go to the clipboard only and file actions to a file only, whatever the configuration
/// says; the plain actions go to the configured default (clipboard and file when copying
/// is on, else a file). Selection and region actions capture a selection, the active-window
/// action the active window, and the rest the full screen; the configuration never changes
/// what is captured. In auto mode, exactly the clipboard actions end the overlay.
pub proof fn lemma_capture_target_follows_the_action(a: CaptureAction, copy_to_clipboard: bool)
    ensures
        is_clipboard_action(a) ==> spec_capture_target(a, copy_to_clipboard).1 == CaptureDestination::ClipboardOnly,
        is_file_action(a) ==> spec_capture_target(a, copy_to_clipboard).1 == CaptureDestination::FileOnly,
        !is_clipboard_action(a) && !is_file_action(a) ==> spec_capture_target(a, copy_to_clipboard).1 == if copy_to_clipboard {
            CaptureDestination::ClipboardAndFile
        } else {
            CaptureDestination::FileOnly
        },
        is_selection_action(a) <==> spec_capture_target(a, copy_to_clipboard).0 is Selection,
        a == CaptureAction::CaptureActiveWindow <==> spec_capture_target(a, copy_to_clipboard).0
            == CaptureType::ActiveWindow,
        spec_capture_target(a, true).0 == spec_capture_target(a, false).0,
        spec_should_exit_after_capture(ExitAfterCaptureMode::Auto, spec_capture_target(a, copy_to_clipboard).1)
            <==> is_clipboard_action(a),
{
}

fn capture_target(action: CaptureAction, copy_to_clipboard: bool) -> (r: (CaptureType, CaptureDestination))
    ensures
        r == spec_capture_target(action, copy_to_clipboard),
{
    let default_destination = if copy_to_clipboard {
        CaptureDestination::ClipboardAndFile
    } else {
        CaptureDestination::FileOnly
    };
    let selection = CaptureType::Selection { x: 0, y: 0, width: 0, height: 0 };
    match action {
        CaptureAction::CaptureFullScreen => (CaptureType::FullScreen, default_destination),
        CaptureAction::CaptureActiveWindow => (CaptureType::ActiveWindow, default_destination),
        CaptureAction::CaptureSelection => (selection, default_destination),
        CaptureAction::CaptureClipboardFull => (CaptureType::FullScreen, CaptureDestination::ClipboardOnly),
        CaptureAction::CaptureFileFull => (CaptureType::FullScreen, CaptureDestination::FileOnly),
        CaptureAction::CaptureClipboardSelection => (selection, CaptureDestination::ClipboardOnly),
        CaptureAction::CaptureFileSelection => (selection, CaptureDestination::FileOnly),
        CaptureAction::CaptureClipboardRegion => (selection, CaptureDestination::ClipboardOnly),
        CaptureAction::CaptureFileRegion => (selection, CaptureDestination::FileOnly),
    }
}

pub open spec fn spec_should_exit_after_capture(mode: ExitAfterCaptureMode, destination: CaptureDestination) -> bool {
    match mode {
        ExitAfterCaptureMode::Always => true,
        ExitAfterCaptureMode::Never => false,
        ExitAfterCaptureMode::Auto => destination == CaptureDestination::ClipboardOnly,
    }
}

/// Whether the overlay exits once a capture to `destination` succeeds: always, never, or
/// (in auto mode) only for clipboard-only captures.
pub fn should_exit_after_capture(mode: ExitAfterCaptureMode, destination: CaptureDestination) -> (b: bool)
    ensures
        b == spec_should_exit_after_capture(mode, destination),
{
    let is_clipboard_only = matches!(destination, CaptureDestination::ClipboardOnly);
    match mode {
        ExitAfterCaptureMode::Always => true,
        ExitAfterCaptureMode::Never => false,
        ExitAfterCaptureMode::Auto => is_clipboard_only,
    }
}

/// How a capture action was answered.
#[derive(Debug, Clone, Copy, PartialEq, Eq, Structural)]
pub enum CaptureActionOutcome {
    /// Windowed presentation cannot capture: an info toast and blocked feedback are due.
    BlockedWindowed,
    /// Capture is disabled in the configuration.
    Disabled,
    /// Another capture is running; the action is ignored.
    Busy,
    /// The capture is queued: the overlay must enter the capture suppression, and the
    /// capture starts once the suppression frame is shown.
    Queued,
}

/// Bookkeeping of the capture in flight.
#[derive(Debug, Clone)]
pub struct CaptureFlow {
    pub in_progress: bool,
    /// Whether the overlay exits when the capture succeeds.
    pub exit_on_success: bool,
    /// The queued capture, waiting for the suppression frame.
    pub preflight: Option<CaptureRequest>,
}

/// The save settings for a destination that writes a file.
pub open spec fn save_config_for(config: CaptureConfig, destination: CaptureDestination) -> Option<FileSaveConfig> {
    if destination == CaptureDestination::ClipboardOnly {
        None
    } else {
        Some(
            FileSaveConfig {
                save_directory: config.save_directory,
                filename_template: config.filename_template,
                format: config.format,
            },
        )
    }
}

impl CaptureFlow {
    /// No capture in flight.
    pub fn new() -> (f: CaptureFlow)
        ensures
            !f.in_progress,
            !f.exit_on_success,
            f.preflight is None,
    {
        CaptureFlow { in_progress: false, exit_on_success: false, preflight: None }
    }

    pub fn is_in_progress(&self) -> (b: bool)
        ensures
            b == self.in_progress,
    {
        self.in_progress
    }

    /// Answers a capture action. Windowed presentation, a disabled configuration and a
    /// capture already running each refuse it, in that order, and change nothing; otherwise
    /// the capture is queued with its destination's save settings, marked in progress, and
    /// the exit-on-success choice recorded.
    pub fn handle_capture_action(
        &mut self,
        mode: PresentationMode,
        exit_mode: ExitAfterCaptureMode,
        config: &CaptureConfig,
        action: CaptureAction,
    ) -> (outcome: CaptureActionOutcome)
        ensures
            mode == PresentationMode::Windowed ==> outcome == CaptureActionOutcome::BlockedWindowed,
            mode != PresentationMode::Windowed && !config.enabled ==> outcome == CaptureActionOutcome::Disabled,
            mode != PresentationMode::Windowed && config.enabled && old(self).in_progress ==> outcome
                == CaptureActionOutcome::Busy,
            mode != PresentationMode::Windowed && config.enabled && !old(self).in_progress ==> outcome
                == CaptureActionOutcome::Queued,
            outcome != CaptureActionOutcome::Queued ==> final(self).in_progress == old(self).in_progress
                && final(self).exit_on_success == old(self).exit_on_success && final(self).preflight
                == old(self).preflight,
            outcome == CaptureActionOutcome::Queued ==> {
                let (capture_type, destination) = spec_capture_target(action, config.copy_to_clipboard);
                &&& final(self).in_progress
                &&& final(self).exit_on_success == spec_should_exit_after_capture(exit_mode, destination)
                &&& final(self).preflight matches Some(req) && req.capture_type == capture_type
                    && req.destination == destination && req.save_config == save_config_for(*config, destination)
            },
    {
        if !mode.allows_capture() {
            return CaptureActionOutcome::BlockedWindowed;
        }
        if !config.enabled {
            return CaptureActionOutcome::Disabled;
        }
        if self.in_progress {
            return CaptureActionOutcome::Busy;
        }
        let (capture_type, destination) = capture_target(action, config.copy_to_clipboard);
        let save_config = if matches!(destination, CaptureDestination::ClipboardOnly) {
            None
        } else {
            Some(
                FileSaveConfig {
                    save_directory: config.save_directory.clone(),
                    filename_template: config.filename_template.clone(),
                    format: config.format.clone(),
                },
            )
        };
        self.exit_on_success = should_exit_after_capture(exit_mode, destination);
        self.in_progress = true;
        self.preflight = Some(CaptureRequest { capture_type, destination, save_config });
        CaptureActionOutcome::Queued
    }

    /// Takes the queued capture once the suppression frame is shown.
    pub fn take_preflight(&mut self) -> (req: Option<CaptureRequest>)
        ensures
            req == old(self).preflight,
            final(self).preflight is None,
            final(self).in_progress == old(self).in_progress,
            final(self).exit_on_success == old(self).exit_on_success,
    {
        self.preflight.take()
    }

    /// The capture could not be requested: the queue is cleared and the capture is no
    /// longer in progress nor set to exit; the caller restores the overlay (leaving the
    /// capture suppression).
    pub fn capture_request_failed(&mut self) -> (restore: OverlaySuppression)
        ensures
            restore == OverlaySuppression::Capture,
            !final(self).in_progress,
            !final(self).exit_on_success,
            final(self).preflight is None,
    {
        self.preflight = None;
        self.in_progress = false;
        self.exit_on_success = false;
        OverlaySuppression::Capture
    }

    /// A capture result arrived: the capture is over, and whether to exit on success is
    /// taken (returned and cleared). The caller restores the overlay.
    pub fn finish(&mut self) -> (exit_on_success: bool)
        ensures
            exit_on_success == old(self).exit_on_success,
            !final(self).in_progress,
            !final(self).exit_on_success,
            final(self).preflight == old(self).preflight,
    {
        let exit = self.exit_on_success;
        self.in_progress = false;
        self.exit_on_success = false;
        exit
    }
}

/// What a capture produced, as far as the overlay cares.
#[derive(Debug, Clone)]
pub enum CaptureOutcome {
    Success {
        /// The file name of the saved image, when it was saved under a path with one.
        saved_file_name: Option<String>,
        /// Whether the image was saved at all.
        saved: bool,
        copied_to_clipboard: bool,
        /// The encoded image that came back (empty when none did).
        image_data: Vec<u8>,
    },
    /// The capture failed; `message` is the user-facing text of the error.
    Failed { message: String },
    Cancelled,
}

/// The action a toast button runs.
#[derive(Debug, Clone, Copy, PartialEq, Eq, Structural)]
pub enum ToastAction {
    /// Save the image kept from a failed clipboard capture to a file.
    SavePendingToFile,
}

/// What a capture result asks of the overlay.
#[derive(Debug, Clone)]
pub enum CaptureResultPlan {
    /// Saved and/or copied: notify with this body (and show capture feedback); exit when asked.
    Captured { body: String, exit: bool },
    /// Clipboard was the only destination and failed while image data exists: keep the
    /// image with these save settings as a save-to-file fallback (which exits afterwards when
    /// `exit_after_save` holds), and show an error toast whose button runs `action`. The
    /// overlay stays open.
    ClipboardFailed {
        image_data: Vec<u8>,
        save_config: FileSaveConfig,
        exit_after_save: bool,
        toast: UiToast,
        action_label: String,
        action: ToastAction,
    },
    /// The capture failed: an error toast with the error's text (and a notification).
    Failed { toast: UiToast },
    /// The capture was cancelled: no toast.
    Cancelled,
}

/// The feedback owed when windowed presentation refuses a capture or a freeze: an info
/// toast and the blocked feedback.
#[derive(Debug, Clone)]
pub struct BlockedNotice {
    pub toast: UiToast,
    pub blocked_feedback: bool,
}

/// The feedback for a capture action's answer: only the windowed refusal has one, an info
/// toast "Screen capture is disabled in windowed mode" with the blocked feedback.
pub fn capture_action_notice(outcome: CaptureActionOutcome) -> (n: Option<BlockedNotice>)
    ensures
        outcome == CaptureActionOutcome::BlockedWindowed ==> (n matches Some(b) && b.blocked_feedback
            && b.toast.kind == UiToastKind::Info && b.toast.message@
            == "Screen capture is disabled in windowed mode"@),
        outcome != CaptureActionOutcome::BlockedWindowed ==> n is None,
{
    match outcome {
        CaptureActionOutcome::BlockedWindowed => Some(
            BlockedNotice {
                toast: UiToast {
                    kind: UiToastKind::Info,
                    message: String::from_str("Screen capture is disabled in windowed mode"),
                },
                blocked_feedback: true,
            },
        ),
        _ => None,
    }
}

/// The feedback for a freeze toggle's answer: only the windowed refusal has one, an info
/// toast "Freeze mode is disabled in windowed mode" with the blocked feedback.
pub fn frozen_toggle_notice(t: FrozenToggle) -> (n: Option<BlockedNotice>)
    ensures
        t == FrozenToggle::BlockedWindowed ==> (n matches Some(b) && b.blocked_feedback && b.toast.kind
            == UiToastKind::Info && b.toast.message@ == "Freeze mode is disabled in windowed mode"@),
        t != FrozenToggle::BlockedWindowed ==> n is None,
{
    match t {
        FrozenToggle::BlockedWindowed => Some(
            BlockedNotice {
                toast: UiToast {
                    kind: UiToastKind::Info,
                    message: String::from_str("Freeze mode is disabled in windowed mode"),
                },
                blocked_feedback: true,
            },
        ),
        _ => None,
    }
}

/// The body of the success notification: "Saved as NAME" and "Copied to clipboard",
/// joined by " - ", or a plain "Screenshot captured" when there is neither.
pub open spec fn spec_notification_body(saved_file_name: Option<Seq<char>>, copied: bool) -> Seq<char> {
    match saved_file_name {
        Some(name) => if copied {
            "Saved as "@ + name + " - "@ + "Copied to clipboard"@
        } else {
            "Saved as "@ + name
        },
        None => if copied {
            "Copied to clipboard"@
        } else {
            "Screenshot captured"@
        },
    }
}

pub open spec fn opt_view(s: Option<String>) -> Option<Seq<char>> {
    match s {
        Some(t) => Some(t@),
        None => None,
    }
}

/// Builds the body of the success notification (see `spec_notification_body`).
pub fn capture_notification_body(saved_file_name: &Option<String>, copied: bool) -> (body: String)
    ensures
        body@ == spec_notification_body(opt_view(*saved_file_name), copied),
{
    match saved_file_name {
        Some(name) => {
            let mut s = String::from_str("Saved as ");
            s.append(name.as_str());
            if copied {
                s.append(" - ");
                s.append("Copied to clipboard");
            }
            s
        },
        None => if copied {
            String::from_str("Copied to clipboard")
        } else {
            String::from_str("Screenshot captured")
        },
    }
}

/// Whether a successful capture in fact failed its only destination, the clipboard.
pub open spec fn clipboard_failed(saved: bool, copied: bool, has_image_data: bool) -> bool {
    !copied && !saved && has_image_data
}

/// The save settings of the configuration, for the save-to-file fallback.
pub open spec fn fallback_save_config(config: CaptureConfig) -> FileSaveConfig {
    FileSaveConfig {
        save_directory: config.save_directory,
        filename_template: config.filename_template,
        format: config.format,
    }
}

/// What a capture result asks of the overlay, given whether the capture was set to exit on
/// success. Only a real success exits; a failed clipboard keeps the overlay open.
pub open spec fn spec_result_plan(outcome: CaptureOutcome, exit_after_capture: bool, config: CaptureConfig, plan: CaptureResultPlan) -> bool {
    match outcome {
        CaptureOutcome::Success { saved_file_name, saved, copied_to_clipboard, image_data } => if clipboard_failed(
            saved,
            copied_to_clipboard,
            image_data@.len() > 0,
        ) {
            plan matches CaptureResultPlan::ClipboardFailed {
                image_data: kept,
                save_config,
                exit_after_save,
                toast,
                action_label,
                action,
            } && kept@ == image_data@ && save_config == fallback_save_config(config) && exit_after_save
                == exit_after_capture && toast.kind == UiToastKind::Error && toast.message@ == "Clipboard failed"@
                && action_label@ == "Save to file"@ && action == ToastAction::SavePendingToFile
        } else {
            plan matches CaptureResultPlan::Captured { body, exit } && exit == exit_after_capture && body@
                == spec_notification_body(opt_view(saved_file_name), copied_to_clipboard)
        },
        CaptureOutcome::Failed { message } => plan matches CaptureResultPlan::Failed { toast } && toast.kind
            == UiToastKind::Error && toast.message@ == message@,
        CaptureOutcome::Cancelled => plan is Cancelled,
    }
}

/// Whether the outcome is a real success: saved or copied, not a clipboard-only failure.
pub open spec fn success_kept(outcome: CaptureOutcome) -> bool {
    match outcome {
        CaptureOutcome::Success { saved, copied_to_clipboard, image_data, .. } => !clipboard_failed(
            saved,
            copied_to_clipboard,
            image_data@.len() > 0,
        ),
        _ => false,
    }
}

/// Whether a plan ends the overlay: only a real success set to exit does.
pub open spec fn plan_exits(plan: CaptureResultPlan) -> bool {
    plan matches CaptureResultPlan::Captured { exit, .. } && exit
}

/// Decides what a capture result does (see `spec_result_plan`).
pub fn capture_result_plan(outcome: CaptureOutcome, exit_after_capture: bool, config: &CaptureConfig) -> (plan: CaptureResultPlan)
    ensures
        spec_result_plan(outcome, exit_after_capture, *config, plan),
{
    match outcome {
        CaptureOutcome::Success { saved_file_name, saved, copied_to_clipboard, image_data } => {
            if !copied_to_clipboard && !saved && image_data.len() > 0 {
                CaptureResultPlan::ClipboardFailed {
                    image_data,
                    save_config: FileSaveConfig {
                        save_directory: config.save_directory.clone(),
                        filename_template: config.filename_template.clone(),
                        format: config.format.clone(),
                    },
                    exit_after_save: exit_after_capture,
                    toast: UiToast { kind: UiToastKind::Error, message: String::from_str("Clipboard failed") },
                    action_label: String::from_str("Save to file"),
                    action: ToastAction::SavePendingToFile,
                }
            } else {
                let body = capture_notification_body(&saved_file_name, copied_to_clipboard);
                CaptureResultPlan::Captured { body, exit: exit_after_capture }
            }
        },
        CaptureOutcome::Failed { message } => CaptureResultPlan::Failed {
            toast: UiToast { kind: UiToastKind::Error, message },
        },
        CaptureOutcome::Cancelled => CaptureResultPlan::Cancelled,
    }
}

/// What handling a capture result does, besides the flow's reset.
#[derive(Debug, Clone)]
pub struct CaptureResultStep {
    /// Restoring the overlay: click highlights cleared, capture suppression left.
    pub show: ShowOverlay,
    pub plan: CaptureResultPlan,
    /// Whether the overlay is to exit now.
    pub exit: bool,
}

impl CaptureFlow {
    /// Handles a capture result: restores the overlay (clearing click highlights and leaving
    /// the capture suppression), ends the capture and takes its exit-on-success choice, and
    /// plans the result with it (see `spec_result_plan`). The overlay exits only after a real
    /// success that was set to exit.
    pub fn handle_capture_result(
        &mut self,
        overlay: &mut StateData,
        outcome: CaptureOutcome,
        config: &CaptureConfig,
    ) -> (r: CaptureResultStep)
        ensures
            !final(self).in_progress,
            !final(self).exit_on_success,
            final(self).preflight == old(self).preflight,
            r.show.clear_click_highlights,
            r.show.redraw,
            final(overlay).overlay_suppression == suppression_after_exit(
                old(overlay).overlay_suppression,
                OverlaySuppression::Capture,
            ),
            *final(overlay) == (StateData {
                overlay_suppression: final(overlay).overlay_suppression,
                ..*old(overlay)
            }),
            final(overlay).overlay_suppression != OverlaySuppression::Capture,
            r.show.change.changed == (old(overlay).overlay_suppression == OverlaySuppression::Capture),
            r.show.change.redraw == r.show.change.changed,
            spec_result_plan(outcome, old(self).exit_on_success, *config, r.plan),
            r.exit == plan_exits(r.plan),
            r.exit == (old(self).exit_on_success && success_kept(outcome)),
    {
        let show = overlay.show_overlay();
        let exit_after_capture = self.finish();
        let plan = capture_result_plan(outcome, exit_after_capture, config);
        let exit = match &plan {
            CaptureResultPlan::Captured { exit, .. } => *exit,
            _ => false,
        };
        CaptureResultStep { show, plan, exit }
    }
}

/// How a pending freeze toggle was answered.
#[derive(Debug, Clone, Copy, PartialEq, Eq, Structural)]
pub enum FrozenToggle {
    /// No toggle was pending.
    NoRequest,
    /// Windowed presentation cannot freeze: an info toast and blocked feedback are due.
    BlockedWindowed,
    /// The compositor offers no way to freeze; ignored.
    Unsupported,
    /// A freeze capture is already running; ignored.
    Busy,
    /// The frozen image is dropped.
    Unfreeze,
    /// Enter the frozen suppression and start a freeze capture, through the portal when
    /// screencopy is unavailable; `StateData::settle_freeze_start` then undoes the
    /// suppression and asks for the cancel when the start failed.
    Start { use_portal_fallback: bool },
}

pub open spec fn spec_frozen_toggle(
    pending: bool,
    mode: PresentationMode,
    frozen_enabled: bool,
    in_progress: bool,
    frozen_active: bool,
    screencopy_available: bool,
) -> FrozenToggle {
    if !pending {
        FrozenToggle::NoRequest
    } else if mode == PresentationMode::Windowed {
        FrozenToggle::BlockedWindowed
    } else if !frozen_enabled {
        FrozenToggle::Unsupported
    } else if in_progress {
        FrozenToggle::Busy
    } else if frozen_active {
        FrozenToggle::Unfreeze
    } else {
        FrozenToggle::Start { use_portal_fallback: !screencopy_available }
    }
}

/// Answers a pending freeze toggle (see `spec_frozen_toggle`).
pub fn handle_frozen_toggle(
    pending: bool,
    mode: PresentationMode,
    frozen_enabled: bool,
    in_progress: bool,
    frozen_active: bool,
    screencopy_available: bool,
) -> (t: FrozenToggle)
    ensures
        t == spec_frozen_toggle(pending, mode, frozen_enabled, in_progress, frozen_active, screencopy_available),
{
    if !pending {
        return FrozenToggle::NoRequest;
    }
    if !mode.allows_freeze() {
        return FrozenToggle::BlockedWindowed;
    }
    if !frozen_enabled {
        FrozenToggle::Unsupported
    } else if in_progress {
        FrozenToggle::Busy
    } else if frozen_active {
        FrozenToggle::Unfreeze
    } else {
        FrozenToggle::Start { use_portal_fallback: !screencopy_available }
    }
}

/// The suppressions to leave once the freeze and zoom captures report completion, in that
/// order.
pub fn completed_capture_suppressions(frozen_done: bool, zoom_done: bool) -> (v: Vec<OverlaySuppression>)
    ensures
        v@ == if frozen_done && zoom_done {
            seq![OverlaySuppression::Frozen, OverlaySuppression::Zoom]
        } else if frozen_done {
            seq![OverlaySuppression::Frozen]
        } else if zoom_done {
            seq![OverlaySuppression::Zoom]
        } else {
            Seq::<OverlaySuppression>::empty()
        },
{
    let mut v: Vec<OverlaySuppression> = Vec::new();
    if frozen_done {
        v.push(OverlaySuppression::Frozen);
    }
    if zoom_done {
        v.push(OverlaySuppression::Zoom);
    }
    v
}

} // verus!
