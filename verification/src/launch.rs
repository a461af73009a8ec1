//! What a command line launches: the About window, a toggle request to the daemon,
//! session commands, the daemon, a one-shot overlay, or the usage text.
use vstd::prelude::*;
use crate::cli::Cli;
use crate::overlay::ExitAfterCaptureMode;
use crate::presentation::PresentationMode;

verus! {

/// The session-resume choice for this run: forced on, forced off, or the configured one.
pub open spec fn spec_session_override(resume: bool, no_resume: bool) -> Option<bool> {
    if resume {
        Some(true)
    } else if no_resume {
        Some(false)
    } else {
        None
    }
}

pub fn session_override_for(cli: &Cli) -> (o: Option<bool>)
    ensures
        o == spec_session_override(cli.resume_session, cli.no_resume_session),
{
    if cli.resume_session {
        Some(true)
    } else if cli.no_resume_session {
        Some(false)
    } else {
        None
    }
}

pub open spec fn spec_exit_mode(exit_after: bool, no_exit_after: bool) -> ExitAfterCaptureMode {
    if exit_after {
        ExitAfterCaptureMode::Always
    } else if no_exit_after {
        ExitAfterCaptureMode::Never
    } else {
        ExitAfterCaptureMode::Auto
    }
}

/// How the overlay behaves after a capture: always or never exit when asked, else the
/// automatic choice.
pub fn exit_after_capture_mode_for(cli: &Cli) -> (m: ExitAfterCaptureMode)
    ensures
        m == spec_exit_mode(cli.exit_after_capture, cli.no_exit_after_capture),
{
    if cli.exit_after_capture {
        ExitAfterCaptureMode::Always
    } else if cli.no_exit_after_capture {
        ExitAfterCaptureMode::Never
    } else {
        ExitAfterCaptureMode::Auto
    }
}

/// The presentation a launch asks for.
pub fn presentation_mode_for(windowed: bool) -> (m: PresentationMode)
    ensures
        m == if windowed { PresentationMode::Windowed } else { PresentationMode::Overlay },
{
    if windowed {
        PresentationMode::Windowed
    } else {
        PresentationMode::Overlay
    }
}

/// A toggle request for the running daemon.
#[derive(Debug, Clone, PartialEq, Eq)]
pub struct DaemonToggleRequest {
    pub mode: Option<String>,
    pub freeze: bool,
    pub exit_after_capture: bool,
    pub no_exit_after_capture: bool,
    pub resume_session: bool,
    pub no_resume_session: bool,
}

/// What the command line launches.
#[derive(Debug, Clone, PartialEq, Eq)]
pub enum LaunchPlan {
    /// Show the About window.
    About,
    /// Send this toggle request to the running daemon.
    DaemonToggle(DaemonToggleRequest),
    /// Run the session commands (clear, info).
    SessionCommands,
    /// Run the daemon.
    Daemon { mode: Option<String>, tray_enabled: bool, session_override: Option<bool>, freeze_on_show: bool },
    /// Run a one-shot overlay (or window). A non-windowed overlay first takes the overlay
    /// lock and quits quietly when another overlay holds it.
    Overlay {
        mode: Option<String>,
        freeze: bool,
        presentation: PresentationMode,
        exit_after_capture_mode: ExitAfterCaptureMode,
        session_override: Option<bool>,
        needs_lock: bool,
    },
    /// Print the usage text.
    Usage,
}

/// Why a launch cannot go on.
#[derive(Debug, Clone, Copy, PartialEq, Eq, Structural)]
pub enum LaunchError {
    /// The daemon or an overlay was asked for outside a Wayland session.
    WaylandRequired,
}

pub open spec fn opt_str_view(s: Option<String>) -> Option<Seq<char>> {
    match s {
        Some(t) => Some(t@),
        None => None,
    }
}

/// Decides the launch, given whether a Wayland display is set and whether the tray is
/// disabled by the environment. The About window comes first, then a daemon toggle, then
/// session commands; the daemon and overlays need Wayland; without any of these flags the
/// usage is printed.
pub fn plan_launch(cli: &Cli, wayland_display_set: bool, tray_disabled_by_env: bool) -> (r: Result<LaunchPlan, LaunchError>)
    ensures
        cli.about ==> r == Ok::<LaunchPlan, LaunchError>(LaunchPlan::About),
        !cli.about && cli.daemon_toggle ==> (r matches Ok(LaunchPlan::DaemonToggle(req)) && opt_str_view(req.mode)
            == opt_str_view(cli.mode) && req.freeze == cli.freeze && req.exit_after_capture
            == cli.exit_after_capture && req.no_exit_after_capture == cli.no_exit_after_capture
            && req.resume_session == cli.resume_session && req.no_resume_session == cli.no_resume_session),
        !cli.about && !cli.daemon_toggle && (cli.clear_session || cli.session_info) ==> r == Ok::<
            LaunchPlan,
            LaunchError,
        >(LaunchPlan::SessionCommands),
        !cli.about && !cli.daemon_toggle && !(cli.clear_session || cli.session_info) && !wayland_display_set && (
        cli.daemon || cli.active || cli.windowed) ==> r == Err::<LaunchPlan, LaunchError>(LaunchError::WaylandRequired),
        !cli.about && !cli.daemon_toggle && !(cli.clear_session || cli.session_info) && (wayland_display_set || !(
        cli.daemon || cli.active || cli.windowed)) ==> {
            if cli.daemon {
                r matches Ok(LaunchPlan::Daemon { mode, tray_enabled, session_override, freeze_on_show })
                    && opt_str_view(mode) == opt_str_view(cli.mode) && tray_enabled == !(cli.no_tray
                    || tray_disabled_by_env) && session_override == spec_session_override(
                    cli.resume_session,
                    cli.no_resume_session,
                ) && freeze_on_show == cli.freeze_on_show
            } else if cli.active || cli.freeze || cli.windowed {
                r matches Ok(
                    LaunchPlan::Overlay {
                        mode,
                        freeze,
                        presentation,
                        exit_after_capture_mode,
                        session_override,
                        needs_lock,
                    },
                ) && opt_str_view(mode) == opt_str_view(cli.mode) && freeze == cli.freeze && presentation == (
                if cli.windowed {
                    PresentationMode::Windowed
                } else {
                    PresentationMode::Overlay
                }) && exit_after_capture_mode == spec_exit_mode(cli.exit_after_capture, cli.no_exit_after_capture)
                    && session_override == spec_session_override(cli.resume_session, cli.no_resume_session)
                    && needs_lock == !cli.windowed
            } else {
                r == Ok::<LaunchPlan, LaunchError>(LaunchPlan::Usage)
            }
        },
{
    if cli.about {
        return Ok(LaunchPlan::About);
    }
    if cli.daemon_toggle {
        return Ok(
            LaunchPlan::DaemonToggle(
                DaemonToggleRequest {
                    mode: cli.mode.clone(),
                    freeze: cli.freeze,
                    exit_after_capture: cli.exit_after_capture,
                    no_exit_after_capture: cli.no_exit_after_capture,
                    resume_session: cli.resume_session,
                    no_resume_session: cli.no_resume_session,
                },
            ),
        );
    }
    if cli.clear_session || cli.session_info {
        return Ok(LaunchPlan::SessionCommands);
    }
    if !wayland_display_set && (cli.daemon || cli.active || cli.windowed) {
        return Err(LaunchError::WaylandRequired);
    }
    let session_override = session_override_for(cli);
    if cli.daemon {
        Ok(
            LaunchPlan::Daemon {
                mode: cli.mode.clone(),
                tray_enabled: !(cli.no_tray || tray_disabled_by_env),
                session_override,
                freeze_on_show: cli.freeze_on_show,
            },
        )
    } else if cli.active || cli.freeze || cli.windowed {
        Ok(
            LaunchPlan::Overlay {
                mode: cli.mode.clone(),
                freeze: cli.freeze,
                presentation: presentation_mode_for(cli.windowed),
                exit_after_capture_mode: exit_after_capture_mode_for(cli),
                session_override,
                needs_lock: !cli.windowed,
            },
        )
    } else {
        Ok(LaunchPlan::Usage)
    }
}

/// Whether a one-shot launch re-executes itself detached from the terminal: only for
/// overlay launches, unless detaching is disabled or this process is already detached.
pub fn should_detach(cli: &Cli, no_detach_env: bool, already_detached: bool) -> (b: bool)
    ensures
        b == ((cli.active || cli.freeze || cli.windowed) && !no_detach_env && !already_detached),
{
    (cli.active || cli.freeze || cli.windowed) && !no_detach_env && !already_detached
}

} // verus!
