//! Command-line interface: the flags, their conflicts and requirements, and the parser.
use vstd::prelude::*;
use crate::text::{chars_of, string_of};

verus! {

/// One of the command-line arguments.
#[derive(Debug, Clone, Copy, PartialEq, Eq, Structural)]
pub enum ArgId {
    Daemon,
    DaemonToggle,
    Active,
    Windowed,
    Mode,
    NoTray,
    FreezeOnShow,
    ClearSession,
    SessionInfo,
    Freeze,
    ExitAfterCapture,
    NoExitAfterCapture,
    ResumeSession,
    NoResumeSession,
    About,
}

/// Parsed command line of the `wayscriber` binary.
#[derive(Debug, Clone)]
pub struct Cli {
    /// Run as daemon (background service; bind a toggle like Super+D)
    pub daemon: bool,
    /// Send a toggle request to the running daemon (supports --mode/--freeze/exit/session overrides)
    pub daemon_toggle: bool,
    /// Start active (show overlay immediately, one-shot mode)
    pub active: bool,
    /// Open as a regular xdg-toplevel window instead of a fullscreen overlay
    pub windowed: bool,
    /// Initial board id (transparent, whiteboard, blackboard, or a custom id)
    pub mode: Option<String>,
    /// Disable system tray (run daemon without a tray icon)
    pub no_tray: bool,
    /// Start daemon activations with frozen mode active (same compositor support as --freeze)
    pub freeze_on_show: bool,
    /// Delete persisted session data and backups
    pub clear_session: bool,
    /// Show session persistence status and file paths
    pub session_info: bool,
    /// Start with frozen mode active (freeze the screen immediately)
    pub freeze: bool,
    /// Exit the overlay after a capture completes (overrides auto clipboard exit)
    pub exit_after_capture: bool,
    /// Keep the overlay open after capture (disables auto clipboard exit)
    pub no_exit_after_capture: bool,
    /// Force session resume on (persist/restore all boards + history/tool state)
    pub resume_session: bool,
    /// Force session resume off (ignore persisted session data for this run)
    pub no_resume_session: bool,
    /// Show the About window
    pub about: bool,
}

/// Why a command line was not accepted (or asks for help/version output instead).
#[derive(Debug, Clone)]
pub enum CliError {
    /// `-h` / `--help` was given.
    DisplayHelp,
    /// `-V` / `--version` was given.
    DisplayVersion,
    /// An option that the program does not define (the text names it).
    UnknownArgument(String),
    /// A value where none is accepted (the program takes no positional arguments).
    UnexpectedArgument(String),
    /// A value attached with `=` to an option that takes none (the argument as given).
    UnneededValue(String),
    /// `--mode` / `-m` without its value.
    MissingValue,
    /// Two arguments that exclude each other, or one argument given twice.
    ArgumentConflict(ArgId, ArgId),
    /// The first argument was given without the second, which it requires.
    MissingRequired(ArgId, ArgId),
}

/// The value of a parse, in mathematical terms.
pub struct CliView {
    pub daemon: bool,
    pub daemon_toggle: bool,
    pub active: bool,
    pub windowed: bool,
    pub mode: Option<Seq<char>>,
    pub no_tray: bool,
    pub freeze_on_show: bool,
    pub clear_session: bool,
    pub session_info: bool,
    pub freeze: bool,
    pub exit_after_capture: bool,
    pub no_exit_after_capture: bool,
    pub resume_session: bool,
    pub no_resume_session: bool,
    pub about: bool,
}

/// A parse error, in mathematical terms.
pub enum CliErrorView {
    DisplayHelp,
    DisplayVersion,
    UnknownArgument(Seq<char>),
    UnexpectedArgument(Seq<char>),
    UnneededValue(Seq<char>),
    MissingValue,
    ArgumentConflict(ArgId, ArgId),
    MissingRequired(ArgId, ArgId),
}

impl View for Cli {
    type V = CliView;

    open spec fn view(&self) -> CliView {
        CliView {
            daemon: self.daemon,
            daemon_toggle: self.daemon_toggle,
            active: self.active,
            windowed: self.windowed,
            mode: match self.mode {
                Some(s) => Some(s@),
                None => None,
            },
            no_tray: self.no_tray,
            freeze_on_show: self.freeze_on_show,
            clear_session: self.clear_session,
            session_info: self.session_info,
            freeze: self.freeze,
            exit_after_capture: self.exit_after_capture,
            no_exit_after_capture: self.no_exit_after_capture,
            resume_session: self.resume_session,
            no_resume_session: self.no_resume_session,
            about: self.about,
        }
    }
}

impl View for CliError {
    type V = CliErrorView;

    open spec fn view(&self) -> CliErrorView {
        match self {
            CliError::DisplayHelp => CliErrorView::DisplayHelp,
            CliError::DisplayVersion => CliErrorView::DisplayVersion,
            CliError::UnknownArgument(s) => CliErrorView::UnknownArgument(s@),
            CliError::UnexpectedArgument(s) => CliErrorView::UnexpectedArgument(s@),
            CliError::UnneededValue(s) => CliErrorView::UnneededValue(s@),
            CliError::MissingValue => CliErrorView::MissingValue,
            CliError::ArgumentConflict(a, b) => CliErrorView::ArgumentConflict(*a, *b),
            CliError::MissingRequired(a, b) => CliErrorView::MissingRequired(*a, *b),
        }
    }
}

/// No argument given.
pub open spec fn empty_view() -> CliView {
    CliView {
        daemon: false,
        daemon_toggle: false,
        active: false,
        windowed: false,
        mode: None,
        no_tray: false,
        freeze_on_show: false,
        clear_session: false,
        session_info: false,
        freeze: false,
        exit_after_capture: false,
        no_exit_after_capture: false,
        resume_session: false,
        no_resume_session: false,
        about: false,
    }
}

/// Whether an argument was given.
pub open spec fn has(v: CliView, id: ArgId) -> bool {
    match id {
        ArgId::Daemon => v.daemon,
        ArgId::DaemonToggle => v.daemon_toggle,
        ArgId::Active => v.active,
        ArgId::Windowed => v.windowed,
        ArgId::Mode => v.mode is Some,
        ArgId::NoTray => v.no_tray,
        ArgId::FreezeOnShow => v.freeze_on_show,
        ArgId::ClearSession => v.clear_session,
        ArgId::SessionInfo => v.session_info,
        ArgId::Freeze => v.freeze,
        ArgId::ExitAfterCapture => v.exit_after_capture,
        ArgId::NoExitAfterCapture => v.no_exit_after_capture,
        ArgId::ResumeSession => v.resume_session,
        ArgId::NoResumeSession => v.no_resume_session,
        ArgId::About => v.about,
    }
}

/// The view with one more flag (not `Mode`) given.
pub open spec fn with_flag(v: CliView, id: ArgId) -> CliView {
    match id {
        ArgId::Daemon => CliView { daemon: true, ..v },
        ArgId::DaemonToggle => CliView { daemon_toggle: true, ..v },
        ArgId::Active => CliView { active: true, ..v },
        ArgId::Windowed => CliView { windowed: true, ..v },
        ArgId::Mode => v,
        ArgId::NoTray => CliView { no_tray: true, ..v },
        ArgId::FreezeOnShow => CliView { freeze_on_show: true, ..v },
        ArgId::ClearSession => CliView { clear_session: true, ..v },
        ArgId::SessionInfo => CliView { session_info: true, ..v },
        ArgId::Freeze => CliView { freeze: true, ..v },
        ArgId::ExitAfterCapture => CliView { exit_after_capture: true, ..v },
        ArgId::NoExitAfterCapture => CliView { no_exit_after_capture: true, ..v },
        ArgId::ResumeSession => CliView { resume_session: true, ..v },
        ArgId::NoResumeSession => CliView { no_resume_session: true, ..v },
        ArgId::About => CliView { about: true, ..v },
    }
}

/// The declared exclusions (`conflicts_with`), in the direction they were declared.
pub open spec fn declared_conflict(a: ArgId, b: ArgId) -> bool {
    match a {
        ArgId::DaemonToggle => b == ArgId::Daemon || b == ArgId::Active || b == ArgId::NoTray
            || b == ArgId::FreezeOnShow || b == ArgId::ClearSession || b == ArgId::SessionInfo
            || b == ArgId::About,
        ArgId::Windowed => b == ArgId::Daemon || b == ArgId::DaemonToggle || b == ArgId::Freeze
            || b == ArgId::FreezeOnShow || b == ArgId::ExitAfterCapture || b
            == ArgId::NoExitAfterCapture,
        ArgId::FreezeOnShow => b == ArgId::Active || b == ArgId::Freeze || b
            == ArgId::ClearSession || b == ArgId::SessionInfo,
        ArgId::ClearSession => b == ArgId::Daemon || b == ArgId::Active,
        ArgId::SessionInfo => b == ArgId::Daemon || b == ArgId::Active || b
            == ArgId::ClearSession,
        ArgId::Freeze => b == ArgId::Daemon || b == ArgId::ClearSession || b
            == ArgId::SessionInfo,
        ArgId::ExitAfterCapture => b == ArgId::NoExitAfterCapture,
        ArgId::NoExitAfterCapture => b == ArgId::ExitAfterCapture,
        ArgId::ResumeSession => b == ArgId::NoResumeSession,
        ArgId::NoResumeSession => b == ArgId::ResumeSession,
        ArgId::About => b == ArgId::Daemon || b == ArgId::DaemonToggle || b == ArgId::Active
            || b == ArgId::Mode || b == ArgId::NoTray || b == ArgId::FreezeOnShow || b
            == ArgId::ClearSession || b == ArgId::SessionInfo || b == ArgId::Freeze || b
            == ArgId::ResumeSession || b == ArgId::NoResumeSession,
        _ => false,
    }
}

/// Two arguments exclude each other when either declares the other.
pub open spec fn conflicts(a: ArgId, b: ArgId) -> bool {
    declared_conflict(a, b) || declared_conflict(b, a)
}

/// No two given arguments exclude each other.
pub open spec fn conflict_free(v: CliView) -> bool {
    forall|a: ArgId, b: ArgId| has(v, a) && has(v, b) ==> !conflicts(a, b)
}

/// What a long option name (without the dashes) stands for.
pub enum OptionKind {
    Arg(ArgId),
    Help,
    Version,
    Unknown,
}

pub open spec fn long_kind(name: Seq<char>) -> OptionKind {
    if name == "daemon"@ {
        OptionKind::Arg(ArgId::Daemon)
    } else if name == "daemon-toggle"@ {
        OptionKind::Arg(ArgId::DaemonToggle)
    } else if name == "active"@ {
        OptionKind::Arg(ArgId::Active)
    } else if name == "windowed"@ {
        OptionKind::Arg(ArgId::Windowed)
    } else if name == "mode"@ {
        OptionKind::Arg(ArgId::Mode)
    } else if name == "no-tray"@ {
        OptionKind::Arg(ArgId::NoTray)
    } else if name == "freeze-on-show"@ {
        OptionKind::Arg(ArgId::FreezeOnShow)
    } else if name == "clear-session"@ {
        OptionKind::Arg(ArgId::ClearSession)
    } else if name == "session-info"@ {
        OptionKind::Arg(ArgId::SessionInfo)
    } else if name == "freeze"@ {
        OptionKind::Arg(ArgId::Freeze)
    } else if name == "exit-after-capture"@ {
        OptionKind::Arg(ArgId::ExitAfterCapture)
    } else if name == "no-exit-after-capture"@ {
        OptionKind::Arg(ArgId::NoExitAfterCapture)
    } else if name == "resume-session"@ {
        OptionKind::Arg(ArgId::ResumeSession)
    } else if name == "no-resume-session"@ {
        OptionKind::Arg(ArgId::NoResumeSession)
    } else if name == "about"@ {
        OptionKind::Arg(ArgId::About)
    } else if name == "help"@ {
        OptionKind::Help
    } else if name == "version"@ {
        OptionKind::Version
    } else {
        OptionKind::Unknown
    }
}

/// What a short option letter stands for.
pub open spec fn short_kind(c: char) -> OptionKind {
    if c == 'd' {
        OptionKind::Arg(ArgId::Daemon)
    } else if c == 'a' {
        OptionKind::Arg(ArgId::Active)
    } else if c == 'w' {
        OptionKind::Arg(ArgId::Windowed)
    } else if c == 'm' {
        OptionKind::Arg(ArgId::Mode)
    } else if c == 'h' {
        OptionKind::Help
    } else if c == 'V' {
        OptionKind::Version
    } else {
        OptionKind::Unknown
    }
}

/// Each short letter names the same option as its long name: `-d` is `--daemon`, `-a` is
/// `--active`, `-w` is `--windowed`, `-m` is `--mode`, `-h` is `--help` and `-V` is
/// `--version`; and the four argument letters name four different arguments.
pub proof fn lemma_short_letters_match_long_names()
    ensures
        short_kind('d') == long_kind("daemon"@),
        short_kind('a') == long_kind("active"@),
        short_kind('w') == long_kind("windowed"@),
        short_kind('m') == long_kind("mode"@),
        short_kind('h') == long_kind("help"@),
        short_kind('V') == long_kind("version"@),
        short_kind('d') != short_kind('a') && short_kind('d') != short_kind('w') && short_kind('d')
            != short_kind('m') && short_kind('a') != short_kind('w') && short_kind('a') != short_kind('m')
            && short_kind('w') != short_kind('m'),
{
    reveal_strlit("daemon");
    reveal_strlit("daemon-toggle");
    reveal_strlit("active");
    reveal_strlit("windowed");
    reveal_strlit("mode");
    reveal_strlit("no-tray");
    reveal_strlit("freeze-on-show");
    reveal_strlit("clear-session");
    reveal_strlit("session-info");
    reveal_strlit("freeze");
    reveal_strlit("exit-after-capture");
    reveal_strlit("no-exit-after-capture");
    reveal_strlit("resume-session");
    reveal_strlit("no-resume-session");
    reveal_strlit("about");
    reveal_strlit("help");
    reveal_strlit("version");
    assert("active"@ != "daemon"@) by {
        assert("active"@[0] != "daemon"@[0]);
    }
    assert("active"@ != "daemon-toggle"@) by {
        assert("active"@.len() != "daemon-toggle"@.len());
    }
    assert("windowed"@ != "daemon"@) by {
        assert("windowed"@.len() != "daemon"@.len());
    }
    assert("windowed"@ != "daemon-toggle"@) by {
        assert("windowed"@.len() != "daemon-toggle"@.len());
    }
    assert("windowed"@ != "active"@) by {
        assert("windowed"@.len() != "active"@.len());
    }
    assert("mode"@ != "daemon"@) by {
        assert("mode"@.len() != "daemon"@.len());
    }
    assert("mode"@ != "daemon-toggle"@) by {
        assert("mode"@.len() != "daemon-toggle"@.len());
    }
    assert("mode"@ != "active"@) by {
        assert("mode"@.len() != "active"@.len());
    }
    assert("mode"@ != "windowed"@) by {
        assert("mode"@.len() != "windowed"@.len());
    }
    assert("help"@ != "daemon"@) by {
        assert("help"@.len() != "daemon"@.len());
    }
    assert("help"@ != "daemon-toggle"@) by {
        assert("help"@.len() != "daemon-toggle"@.len());
    }
    assert("help"@ != "active"@) by {
        assert("help"@.len() != "active"@.len());
    }
    assert("help"@ != "windowed"@) by {
        assert("help"@.len() != "windowed"@.len());
    }
    assert("help"@ != "mode"@) by {
        assert("help"@[0] != "mode"@[0]);
    }
    assert("help"@ != "no-tray"@) by {
        assert("help"@.len() != "no-tray"@.len());
    }
    assert("help"@ != "freeze-on-show"@) by {
        assert("help"@.len() != "freeze-on-show"@.len());
    }
    assert("help"@ != "clear-session"@) by {
        assert("help"@.len() != "clear-session"@.len());
    }
    assert("help"@ != "session-info"@) by {
        assert("help"@.len() != "session-info"@.len());
    }
    assert("help"@ != "freeze"@) by {
        assert("help"@.len() != "freeze"@.len());
    }
    assert("help"@ != "exit-after-capture"@) by {
        assert("help"@.len() != "exit-after-capture"@.len());
    }
    assert("help"@ != "no-exit-after-capture"@) by {
        assert("help"@.len() != "no-exit-after-capture"@.len());
    }
    assert("help"@ != "resume-session"@) by {
        assert("help"@.len() != "resume-session"@.len());
    }
    assert("help"@ != "no-resume-session"@) by {
        assert("help"@.len() != "no-resume-session"@.len());
    }
    assert("help"@ != "about"@) by {
        assert("help"@.len() != "about"@.len());
    }
    assert("version"@ != "daemon"@) by {
        assert("version"@.len() != "daemon"@.len());
    }
    assert("version"@ != "daemon-toggle"@) by {
        assert("version"@.len() != "daemon-toggle"@.len());
    }
    assert("version"@ != "active"@) by {
        assert("version"@.len() != "active"@.len());
    }
    assert("version"@ != "windowed"@) by {
        assert("version"@.len() != "windowed"@.len());
    }
    assert("version"@ != "mode"@) by {
        assert("version"@.len() != "mode"@.len());
    }
    assert("version"@ != "no-tray"@) by {
        assert("version"@[0] != "no-tray"@[0]);
    }
    assert("version"@ != "freeze-on-show"@) by {
        assert("version"@.len() != "freeze-on-show"@.len());
    }
    assert("version"@ != "clear-session"@) by {
        assert("version"@.len() != "clear-session"@.len());
    }
    assert("version"@ != "session-info"@) by {
        assert("version"@.len() != "session-info"@.len());
    }
    assert("version"@ != "freeze"@) by {
        assert("version"@.len() != "freeze"@.len());
    }
    assert("version"@ != "exit-after-capture"@) by {
        assert("version"@.len() != "exit-after-capture"@.len());
    }
    assert("version"@ != "no-exit-after-capture"@) by {
        assert("version"@.len() != "no-exit-after-capture"@.len());
    }
    assert("version"@ != "resume-session"@) by {
        assert("version"@.len() != "resume-session"@.len());
    }
    assert("version"@ != "no-resume-session"@) by {
        assert("version"@.len() != "no-resume-session"@.len());
    }
    assert("version"@ != "about"@) by {
        assert("version"@.len() != "about"@.len());
    }
    assert("version"@ != "help"@) by {
        assert("version"@.len() != "help"@.len());
    }
}

/// An option that still waits for (or holds, not yet recorded) its value.
pub enum PendingValue {
    Nothing,
    Awaiting,
    Holding(Seq<char>),
}

/// Where the scan of the arguments stands.
pub struct ScanState {
    pub cli: CliView,
    pub pending: PendingValue,
    /// After `--`: everything that follows is a positional value.
    pub trailing: bool,
}

/// Records a flag; a flag given twice conflicts with itself.
pub open spec fn add_flag(st: ScanState, id: ArgId) -> Result<ScanState, CliErrorView> {
    if has(st.cli, id) {
        Err(CliErrorView::ArgumentConflict(id, id))
    } else {
        Ok(ScanState { cli: with_flag(st.cli, id), ..st })
    }
}

/// Records the `--mode` value; the option given twice conflicts with itself.
pub open spec fn add_mode(st: ScanState, value: Seq<char>) -> Result<ScanState, CliErrorView> {
    if st.cli.mode is Some {
        Err(CliErrorView::ArgumentConflict(ArgId::Mode, ArgId::Mode))
    } else {
        Ok(ScanState { cli: CliView { mode: Some(value), ..st.cli }, ..st })
    }
}

/// Settles a pending option before the next recognized argument is applied.
pub open spec fn resolve(st: ScanState) -> Result<ScanState, CliErrorView> {
    match st.pending {
        PendingValue::Nothing => Ok(st),
        PendingValue::Awaiting => Err(CliErrorView::MissingValue),
        PendingValue::Holding(v) => add_mode(ScanState { pending: PendingValue::Nothing, ..st }, v),
    }
}

/// Index of the first `=` in `s` (its length when there is none).
pub open spec fn first_eq(s: Seq<char>) -> int
    decreases s.len(),
{
    if s.len() == 0 {
        0
    } else if s[0] == '=' {
        0
    } else {
        1 + first_eq(s.drop_first())
    }
}

/// One `--name` or `--name=value` argument.
pub open spec fn long_step(a: Seq<char>, st: ScanState) -> Result<ScanState, CliErrorView> {
    let body = a.skip(2);
    let k = first_eq(body);
    let name = body.take(k);
    let has_value = k < body.len();
    let value = body.skip(k + 1);
    match long_kind(name) {
        OptionKind::Unknown => Err(CliErrorView::UnknownArgument(a)),
        OptionKind::Help => if has_value {
            Err(CliErrorView::UnneededValue(a))
        } else {
            match resolve(st) {
                Ok(_) => Err(CliErrorView::DisplayHelp),
                Err(e) => Err(e),
            }
        },
        OptionKind::Version => if has_value {
            Err(CliErrorView::UnneededValue(a))
        } else {
            match resolve(st) {
                Ok(_) => Err(CliErrorView::DisplayVersion),
                Err(e) => Err(e),
            }
        },
        OptionKind::Arg(id) => if id == ArgId::Mode {
            match resolve(st) {
                Ok(s) => if has_value {
                    add_mode(s, value)
                } else {
                    Ok(ScanState { pending: PendingValue::Awaiting, ..s })
                },
                Err(e) => Err(e),
            }
        } else if has_value {
            Err(CliErrorView::UnneededValue(a))
        } else {
            match resolve(st) {
                Ok(s) => add_flag(s, id),
                Err(e) => Err(e),
            }
        },
    }
}

/// The letters of a `-xyz` cluster from position `j` on.
pub open spec fn short_step(a: Seq<char>, j: int, st: ScanState) -> Result<ScanState, CliErrorView>
    decreases a.len() - j,
{
    if j >= a.len() || j < 1 {
        Ok(st)
    } else {
        match short_kind(a[j]) {
            OptionKind::Unknown => Err(CliErrorView::UnknownArgument(seq!['-', a[j]])),
            OptionKind::Help => match resolve(st) {
                Ok(_) => Err(CliErrorView::DisplayHelp),
                Err(e) => Err(e),
            },
            OptionKind::Version => match resolve(st) {
                Ok(_) => Err(CliErrorView::DisplayVersion),
                Err(e) => Err(e),
            },
            OptionKind::Arg(id) => match resolve(st) {
                Err(e) => Err(e),
                Ok(s) => if id == ArgId::Mode {
                    let rest = a.skip(j + 1);
                    if rest.len() > 0 {
                        add_mode(s, if rest[0] == '=' { rest.drop_first() } else { rest })
                    } else {
                        Ok(ScanState { pending: PendingValue::Awaiting, ..s })
                    }
                } else {
                    match add_flag(s, id) {
                        Ok(s2) => short_step(a, j + 1, s2),
                        Err(e) => Err(e),
                    }
                },
            },
        }
    }
}

/// One argument of the command line.
pub open spec fn step(a: Seq<char>, st: ScanState) -> Result<ScanState, CliErrorView> {
    if st.trailing {
        Err(CliErrorView::UnexpectedArgument(a))
    } else if a == seq!['-', '-'] {
        Ok(ScanState { trailing: true, ..st })
    } else if a.len() >= 2 && a[0] == '-' && a[1] == '-' {
        long_step(a, st)
    } else if a.len() >= 2 && a[0] == '-' {
        short_step(a, 1, st)
    } else if st.pending is Awaiting {
        Ok(ScanState { pending: PendingValue::Holding(a), ..st })
    } else {
        Err(CliErrorView::UnexpectedArgument(a))
    }
}

/// The arguments from index `i` on.
pub open spec fn scan(args: Seq<Seq<char>>, i: int, st: ScanState) -> Result<ScanState, CliErrorView>
    decreases args.len() - i,
{
    if i >= args.len() || i < 0 {
        Ok(st)
    } else {
        match step(args[i], st) {
            Ok(s) => scan(args, i + 1, s),
            Err(e) => Err(e),
        }
    }
}

/// A lone short option has the same effect as its long spelling, whatever came before it
/// (short of a `--` that makes every later argument positional): `-d` acts as `--daemon`,
/// `-a` as `--active`, `-w` as `--windowed` and `-m` as `--mode`.
pub proof fn lemma_short_option_acts_as_long(st: ScanState)
    requires
        !st.trailing,
    ensures
        step(seq!['-', 'd'], st) == step(seq!['-', '-'] + "daemon"@, st),
        step(seq!['-', 'a'], st) == step(seq!['-', '-'] + "active"@, st),
        step(seq!['-', 'w'], st) == step(seq!['-', '-'] + "windowed"@, st),
        step(seq!['-', 'm'], st) == step(seq!['-', '-'] + "mode"@, st),
{
    lemma_short_letters_match_long_names();
    reveal_strlit("daemon");
    reveal_strlit("active");
    reveal_strlit("windowed");
    reveal_strlit("mode");
    reveal_with_fuel(first_eq, 10);
    reveal_with_fuel(short_step, 3);
    let d = seq!['-', '-'] + "daemon"@;
    assert(d.skip(2) =~= "daemon"@);
    assert(first_eq("daemon"@) == 6);
    assert("daemon"@.take(6) =~= "daemon"@);
    let a = seq!['-', '-'] + "active"@;
    assert(a.skip(2) =~= "active"@);
    assert(first_eq("active"@) == 6);
    assert("active"@.take(6) =~= "active"@);
    let w = seq!['-', '-'] + "windowed"@;
    assert(w.skip(2) =~= "windowed"@);
    assert(first_eq("windowed"@) == 8);
    assert("windowed"@.take(8) =~= "windowed"@);
    let m = seq!['-', '-'] + "mode"@;
    assert(m.skip(2) =~= "mode"@);
    assert(first_eq("mode"@) == 4);
    assert("mode"@.take(4) =~= "mode"@);
    assert(seq!['-', 'm'].skip(2).len() == 0);
    assert(d != seq!['-', '-'] && a != seq!['-', '-'] && w != seq!['-', '-'] && m != seq!['-', '-']);
}

/// The start of a scan: nothing given, nothing pending.
pub open spec fn initial_scan_state() -> ScanState {
    ScanState { cli: empty_view(), pending: PendingValue::Nothing, trailing: false }
}

/// The result of scanning the arguments after the program name (before validation).
pub open spec fn scan_args(args: Seq<Seq<char>>) -> Result<CliView, CliErrorView> {
    match scan(args, 1, initial_scan_state()) {
        Ok(st) => match resolve(st) {
            Ok(s) => Ok(s.cli),
            Err(e) => Err(e),
        },
        Err(e) => Err(e),
    }
}

impl Cli {
    /// Parses a command line (`args[0]` is the program name) with the declared
    /// conflicts and requirements.
    pub fn try_parse_from(args: &[&str]) -> (r: Result<Cli, CliError>)
        ensures
            match scan_args(args.deep_view()) {
                Err(e) => r matches Err(err) && err@ == e,
                Ok(v) => if !conflict_free(v) {
                    r matches Err(CliError::ArgumentConflict(a, b)) && has(v, a) && has(v, b)
                        && conflicts(a, b)
                } else if v.freeze_on_show && !v.daemon {
                    r matches Err(CliError::MissingRequired(ArgId::FreezeOnShow, ArgId::Daemon))
                } else {
                    r matches Ok(cli) && cli@ == v
                },
            },
            r matches Ok(cli) ==> conflict_free(cli@) && (cli@.freeze_on_show ==> cli@.daemon),
    {
        let mut argv: Vec<Vec<char>> = Vec::new();
        let mut k: usize = 0;
        while k < args.len()
            invariant
                k <= args.len(),
                argv@.len() == k,
                forall|t: int| 0 <= t < k ==> #[trigger] argv@[t]@ == args.deep_view()[t],
            decreases args.len() - k,
        {
            argv.push(chars_of(args[k]));
            k = k + 1;
        }
        let ghost dv = args.deep_view();
        assert(argv@.map_values(|v: Vec<char>| v@) =~= dv);
        let mut st = ExecScan { cli: Cli::none(), pending: ExecPending::Nothing, trailing: false };
        let mut i: usize = 1;
        if argv.len() == 0 {
            i = 0;
        }
        assert(scan(dv, 1, initial_scan_state()) == scan(dv, i as int, st@));
        while i < argv.len()
            invariant
                1 <= i <= argv.len() || (i == 0 && argv.len() == 0),
                argv@.map_values(|v: Vec<char>| v@) == dv,
                dv == args.deep_view(),
                scan(dv, 1, initial_scan_state()) == scan(dv, i as int, st@),
            decreases argv.len() - i,
        {
            assert(argv@[i as int]@ == dv[i as int]);
            let ghost before = st@;
            match exec_step(&argv[i], st) {
                Ok(s) => {
                    st = s;
                },
                Err(e) => {
                    assert(step(dv[i as int], before) == Err::<ScanState, CliErrorView>(e@));
                    assert(scan(dv, i as int, before) == Err::<ScanState, CliErrorView>(e@));
                    assert(scan(dv, 1, initial_scan_state()) == Err::<ScanState, CliErrorView>(e@));
                    assert(scan_args(dv) == Err::<CliView, CliErrorView>(e@));
                    return Err(e);
                },
            }
            i = i + 1;
        }
        let st = match exec_resolve(st) {
            Ok(s) => s,
            Err(e) => {
                return Err(e);
            },
        };
        let cli = st.cli;
        match first_conflict(&cli) {
            Some((a, b)) => {
                return Err(CliError::ArgumentConflict(a, b));
            },
            None => {},
        }
        if cli.freeze_on_show && !cli.daemon {
            return Err(CliError::MissingRequired(ArgId::FreezeOnShow, ArgId::Daemon));
        }
        Ok(cli)
    }

    /// No flags given.
    fn none() -> (c: Cli)
        ensures
            c@ == empty_view(),
    {
        Cli {
            daemon: false,
            daemon_toggle: false,
            active: false,
            windowed: false,
            mode: None,
            no_tray: false,
            freeze_on_show: false,
            clear_session: false,
            session_info: false,
            freeze: false,
            exit_after_capture: false,
            no_exit_after_capture: false,
            resume_session: false,
            no_resume_session: false,
            about: false,
        }
    }

    /// Whether an argument was given.
    pub fn has_arg(&self, id: ArgId) -> (b: bool)
        ensures
            b == has(self@, id),
    {
        match id {
            ArgId::Daemon => self.daemon,
            ArgId::DaemonToggle => self.daemon_toggle,
            ArgId::Active => self.active,
            ArgId::Windowed => self.windowed,
            ArgId::Mode => self.mode.is_some(),
            ArgId::NoTray => self.no_tray,
            ArgId::FreezeOnShow => self.freeze_on_show,
            ArgId::ClearSession => self.clear_session,
            ArgId::SessionInfo => self.session_info,
            ArgId::Freeze => self.freeze,
            ArgId::ExitAfterCapture => self.exit_after_capture,
            ArgId::NoExitAfterCapture => self.no_exit_after_capture,
            ArgId::ResumeSession => self.resume_session,
            ArgId::NoResumeSession => self.no_resume_session,
            ArgId::About => self.about,
        }
    }

    #[verifier::rlimit(50)]
    fn set_flag(&mut self, id: ArgId)
        requires
            id != ArgId::Mode,
        ensures
            final(self)@ == with_flag(old(self)@, id),
    {
        match id {
            ArgId::Daemon => self.daemon = true,
            ArgId::DaemonToggle => self.daemon_toggle = true,
            ArgId::Active => self.active = true,
            ArgId::Windowed => self.windowed = true,
            ArgId::Mode => {},
            ArgId::NoTray => self.no_tray = true,
            ArgId::FreezeOnShow => self.freeze_on_show = true,
            ArgId::ClearSession => self.clear_session = true,
            ArgId::SessionInfo => self.session_info = true,
            ArgId::Freeze => self.freeze = true,
            ArgId::ExitAfterCapture => self.exit_after_capture = true,
            ArgId::NoExitAfterCapture => self.no_exit_after_capture = true,
            ArgId::ResumeSession => self.resume_session = true,
            ArgId::NoResumeSession => self.no_resume_session = true,
            ArgId::About => self.about = true,
        }
    }
}

enum ExecPending {
    Nothing,
    Awaiting,
    Holding(Vec<char>),
}

struct ExecScan {
    cli: Cli,
    pending: ExecPending,
    trailing: bool,
}

impl View for ExecScan {
    type V = ScanState;

    closed spec fn view(&self) -> ScanState {
        ScanState {
            cli: self.cli@,
            pending: match self.pending {
                ExecPending::Nothing => PendingValue::Nothing,
                ExecPending::Awaiting => PendingValue::Awaiting,
                ExecPending::Holding(v) => PendingValue::Holding(v@),
            },
            trailing: self.trailing,
        }
    }
}

spec fn lift(r: Result<ExecScan, CliError>) -> Result<ScanState, CliErrorView> {
    match r {
        Ok(s) => Ok(s@),
        Err(e) => Err(e@),
    }
}

fn exec_add_flag(st: ExecScan, id: ArgId) -> (r: Result<ExecScan, CliError>)
    requires
        id != ArgId::Mode,
    ensures
        lift(r) == add_flag(st@, id),
{
    if st.cli.has_arg(id) {
        return Err(CliError::ArgumentConflict(id, id));
    }
    let mut st = st;
    st.cli.set_flag(id);
    Ok(st)
}

fn exec_add_mode(st: ExecScan, value: Vec<char>) -> (r: Result<ExecScan, CliError>)
    ensures
        lift(r) == add_mode(st@, value@),
{
    if st.cli.mode.is_some() {
        return Err(CliError::ArgumentConflict(ArgId::Mode, ArgId::Mode));
    }
    let mut st = st;
    st.cli.mode = Some(string_of(&value));
    Ok(st)
}

fn exec_resolve(st: ExecScan) -> (r: Result<ExecScan, CliError>)
    ensures
        lift(r) == resolve(st@),
{
    match st.pending {
        ExecPending::Nothing => Ok(st),
        ExecPending::Awaiting => Err(CliError::MissingValue),
        ExecPending::Holding(v) => exec_add_mode(
            ExecScan { cli: st.cli, pending: ExecPending::Nothing, trailing: st.trailing },
            v,
        ),
    }
}

/// Whether `v[lo..hi]` spells `lit`.
fn eq_lit(v: &Vec<char>, lo: usize, hi: usize, lit: &str) -> (b: bool)
    requires
        lo <= hi <= v.len(),
    ensures
        b == (v@.subrange(lo as int, hi as int) == lit@),
{
    let l = chars_of(lit);
    assert(v@.subrange(lo as int, hi as int).len() == hi - lo);
    if hi - lo != l.len() {
        return false;
    }
    let mut i: usize = 0;
    while i < l.len()
        invariant
            lo <= hi <= v.len(),
            hi - lo == l.len(),
            l@ == lit@,
            i <= l.len(),
            forall|t: int| 0 <= t < i ==> v@[lo + t] == l@[t],
        decreases l.len() - i,
    {
        if v[lo + i] != l[i] {
            assert(v@.subrange(lo as int, hi as int)[i as int] != l@[i as int]);
            return false;
        }
        i = i + 1;
    }
    assert(v@.subrange(lo as int, hi as int) =~= l@);
    true
}

fn exec_long_kind(v: &Vec<char>, lo: usize, hi: usize) -> (k: Option<Option<ArgId>>)
    requires
        lo <= hi <= v.len(),
    ensures
        match long_kind(v@.subrange(lo as int, hi as int)) {
            OptionKind::Arg(id) => k == Some(Some(id)),
            OptionKind::Help => k == Some(None::<ArgId>) && v@.subrange(lo as int, hi as int) == "help"@,
            OptionKind::Version => k == Some(None::<ArgId>) && v@.subrange(lo as int, hi as int) != "help"@,
            OptionKind::Unknown => k is None,
        },
{
    if eq_lit(v, lo, hi, "daemon") {
        Some(Some(ArgId::Daemon))
    } else if eq_lit(v, lo, hi, "daemon-toggle") {
        Some(Some(ArgId::DaemonToggle))
    } else if eq_lit(v, lo, hi, "active") {
        Some(Some(ArgId::Active))
    } else if eq_lit(v, lo, hi, "windowed") {
        Some(Some(ArgId::Windowed))
    } else if eq_lit(v, lo, hi, "mode") {
        Some(Some(ArgId::Mode))
    } else if eq_lit(v, lo, hi, "no-tray") {
        Some(Some(ArgId::NoTray))
    } else if eq_lit(v, lo, hi, "freeze-on-show") {
        Some(Some(ArgId::FreezeOnShow))
    } else if eq_lit(v, lo, hi, "clear-session") {
        Some(Some(ArgId::ClearSession))
    } else if eq_lit(v, lo, hi, "session-info") {
        Some(Some(ArgId::SessionInfo))
    } else if eq_lit(v, lo, hi, "freeze") {
        Some(Some(ArgId::Freeze))
    } else if eq_lit(v, lo, hi, "exit-after-capture") {
        Some(Some(ArgId::ExitAfterCapture))
    } else if eq_lit(v, lo, hi, "no-exit-after-capture") {
        Some(Some(ArgId::NoExitAfterCapture))
    } else if eq_lit(v, lo, hi, "resume-session") {
        Some(Some(ArgId::ResumeSession))
    } else if eq_lit(v, lo, hi, "no-resume-session") {
        Some(Some(ArgId::NoResumeSession))
    } else if eq_lit(v, lo, hi, "about") {
        Some(Some(ArgId::About))
    } else if eq_lit(v, lo, hi, "help") {
        Some(None)
    } else if eq_lit(v, lo, hi, "version") {
        Some(None)
    } else {
        None
    }
}

fn exec_long_step(a: &Vec<char>, st: ExecScan) -> (r: Result<ExecScan, CliError>)
    requires
        a@.len() >= 2,
    ensures
        lift(r) == long_step(a@, st@),
{
    let ghost body = a@.skip(2);
    let n = a.len();
    let mut k: usize = 2;
    assert(body.skip(0) =~= body);
    while k < n && a[k] != '='
        invariant
            2 <= k <= n == a.len(),
            body == a@.skip(2),
            first_eq(body) == (k - 2) + first_eq(body.skip(k - 2)),
        decreases n - k,
    {
        assert(body.skip(k - 2).drop_first() =~= body.skip(k - 1));
        k = k + 1;
    }
    assert(first_eq(body.skip(k - 2)) == 0);
    assert(first_eq(body) == k - 2);
    assert(body.take(k - 2) =~= a@.subrange(2, k as int));
    let has_value = k < n;
    let ghost whole = a@;
    match exec_long_kind(a, 2, k) {
        None => Err(CliError::UnknownArgument(string_of(a))),
        Some(None) => {
            if has_value {
                return Err(CliError::UnneededValue(string_of(a)));
            }
            let help = eq_lit(a, 2, k, "help");
            match exec_resolve(st) {
                Ok(_) => if help {
                    Err(CliError::DisplayHelp)
                } else {
                    Err(CliError::DisplayVersion)
                },
                Err(e) => Err(e),
            }
        },
        Some(Some(id)) => {
            if id == ArgId::Mode {
                match exec_resolve(st) {
                    Ok(s) => if has_value {
                        let mut value: Vec<char> = Vec::new();
                        let mut t: usize = k + 1;
                        while t < n
                            invariant
                                k + 1 <= t <= n == a.len(),
                                value@ == a@.subrange(k + 1, t as int),
                            decreases n - t,
                        {
                            value.push(a[t]);
                            assert(a@.subrange(k + 1, t as int).push(a@[t as int]) =~= a@.subrange(k + 1, t + 1));
                            t = t + 1;
                        }
                        assert(value@ =~= body.skip(first_eq(body) + 1));
                        exec_add_mode(s, value)
                    } else {
                        Ok(ExecScan { cli: s.cli, pending: ExecPending::Awaiting, trailing: s.trailing })
                    },
                    Err(e) => Err(e),
                }
            } else if has_value {
                Err(CliError::UnneededValue(string_of(a)))
            } else {
                match exec_resolve(st) {
                    Ok(s) => exec_add_flag(s, id),
                    Err(e) => Err(e),
                }
            }
        },
    }
}

fn exec_short_kind(c: char) -> (k: Option<Option<ArgId>>)
    ensures
        match short_kind(c) {
            OptionKind::Arg(id) => k == Some(Some(id)),
            OptionKind::Help => k == Some(None::<ArgId>) && c == 'h',
            OptionKind::Version => k == Some(None::<ArgId>) && c != 'h',
            OptionKind::Unknown => k is None,
        },
{
    if c == 'd' {
        Some(Some(ArgId::Daemon))
    } else if c == 'a' {
        Some(Some(ArgId::Active))
    } else if c == 'w' {
        Some(Some(ArgId::Windowed))
    } else if c == 'm' {
        Some(Some(ArgId::Mode))
    } else if c == 'h' || c == 'V' {
        Some(None)
    } else {
        None
    }
}

fn exec_short_step(a: &Vec<char>, j: usize, st: ExecScan) -> (r: Result<ExecScan, CliError>)
    requires
        1 <= j <= a.len(),
    ensures
        lift(r) == short_step(a@, j as int, st@),
    decreases a.len() - j,
{
    if j >= a.len() {
        return Ok(st);
    }
    let c = a[j];
    match exec_short_kind(c) {
        None => {
            let mut s: Vec<char> = Vec::new();
            s.push('-');
            s.push(c);
            assert(s@ =~= seq!['-', c]);
            Err(CliError::UnknownArgument(string_of(&s)))
        },
        Some(None) => match exec_resolve(st) {
            Ok(_) => if c == 'h' {
                Err(CliError::DisplayHelp)
            } else {
                Err(CliError::DisplayVersion)
            },
            Err(e) => Err(e),
        },
        Some(Some(id)) => match exec_resolve(st) {
            Err(e) => Err(e),
            Ok(s) => if id == ArgId::Mode {
                let n = a.len();
                if j + 1 < n {
                    let start = if a[j + 1] == '=' { j + 2 } else { j + 1 };
                    let mut value: Vec<char> = Vec::new();
                    let mut t: usize = start;
                    while t < n
                        invariant
                            start <= t <= n == a.len(),
                            value@ == a@.subrange(start as int, t as int),
                        decreases n - t,
                    {
                        value.push(a[t]);
                        assert(a@.subrange(start as int, t as int).push(a@[t as int]) =~= a@.subrange(start as int, t + 1));
                        t = t + 1;
                    }
                    let ghost rest = a@.skip(j + 1);
                    assert(value@ =~= (if rest[0] == '=' { rest.drop_first() } else { rest }));
                    exec_add_mode(s, value)
                } else {
                    Ok(ExecScan { cli: s.cli, pending: ExecPending::Awaiting, trailing: s.trailing })
                }
            } else {
                match exec_add_flag(s, id) {
                    Ok(s2) => exec_short_step(a, j + 1, s2),
                    Err(e) => Err(e),
                }
            },
        },
    }
}

fn exec_step(a: &Vec<char>, st: ExecScan) -> (r: Result<ExecScan, CliError>)
    ensures
        lift(r) == step(a@, st@),
{
    if st.trailing {
        return Err(CliError::UnexpectedArgument(string_of(a)));
    }
    let n = a.len();
    if n == 2 && a[0] == '-' && a[1] == '-' {
        assert(a@ =~= seq!['-', '-']);
        return Ok(ExecScan { cli: st.cli, pending: st.pending, trailing: true });
    }
    assert(a@ != seq!['-', '-'] || (n == 2 && a@[0] == '-' && a@[1] == '-'));
    if n >= 2 && a[0] == '-' && a[1] == '-' {
        exec_long_step(a, st)
    } else if n >= 2 && a[0] == '-' {
        exec_short_step(a, 1, st)
    } else {
        match st.pending {
            ExecPending::Awaiting => Ok(
                ExecScan { cli: st.cli, pending: ExecPending::Holding(a.clone()), trailing: false },
            ),
            _ => Err(CliError::UnexpectedArgument(string_of(a))),
        }
    }
}

/// Position of an argument in `ALL_ARGS` order.
spec fn arg_index(a: ArgId) -> int {
    match a {
        ArgId::Daemon => 0,
        ArgId::DaemonToggle => 1,
        ArgId::Active => 2,
        ArgId::Windowed => 3,
        ArgId::Mode => 4,
        ArgId::NoTray => 5,
        ArgId::FreezeOnShow => 6,
        ArgId::ClearSession => 7,
        ArgId::SessionInfo => 8,
        ArgId::Freeze => 9,
        ArgId::ExitAfterCapture => 10,
        ArgId::NoExitAfterCapture => 11,
        ArgId::ResumeSession => 12,
        ArgId::NoResumeSession => 13,
        ArgId::About => 14,
    }
}

fn all_args() -> (v: Vec<ArgId>)
    ensures
        v@.len() == 15,
        forall|a: ArgId| v@[#[trigger] arg_index(a)] == a,
        forall|a: ArgId| 0 <= #[trigger] arg_index(a) < 15,
{
    let v = vec![
        ArgId::Daemon,
        ArgId::DaemonToggle,
        ArgId::Active,
        ArgId::Windowed,
        ArgId::Mode,
        ArgId::NoTray,
        ArgId::FreezeOnShow,
        ArgId::ClearSession,
        ArgId::SessionInfo,
        ArgId::Freeze,
        ArgId::ExitAfterCapture,
        ArgId::NoExitAfterCapture,
        ArgId::ResumeSession,
        ArgId::NoResumeSession,
        ArgId::About,
    ];
    assert forall|a: ArgId| v@[#[trigger] arg_index(a)] == a by {
        match a {
            ArgId::Daemon => {},
            ArgId::DaemonToggle => {},
            ArgId::Active => {},
            ArgId::Windowed => {},
            ArgId::Mode => {},
            ArgId::NoTray => {},
            ArgId::FreezeOnShow => {},
            ArgId::ClearSession => {},
            ArgId::SessionInfo => {},
            ArgId::Freeze => {},
            ArgId::ExitAfterCapture => {},
            ArgId::NoExitAfterCapture => {},
            ArgId::ResumeSession => {},
            ArgId::NoResumeSession => {},
            ArgId::About => {},
        }
    }
    v
}

fn exec_declared_conflict(a: ArgId, b: ArgId) -> (r: bool)
    ensures
        r == declared_conflict(a, b),
{
    match a {
        ArgId::DaemonToggle => b == ArgId::Daemon || b == ArgId::Active || b == ArgId::NoTray
            || b == ArgId::FreezeOnShow || b == ArgId::ClearSession || b == ArgId::SessionInfo
            || b == ArgId::About,
        ArgId::Windowed => b == ArgId::Daemon || b == ArgId::DaemonToggle || b == ArgId::Freeze
            || b == ArgId::FreezeOnShow || b == ArgId::ExitAfterCapture || b
            == ArgId::NoExitAfterCapture,
        ArgId::FreezeOnShow => b == ArgId::Active || b == ArgId::Freeze || b
            == ArgId::ClearSession || b == ArgId::SessionInfo,
        ArgId::ClearSession => b == ArgId::Daemon || b == ArgId::Active,
        ArgId::SessionInfo => b == ArgId::Daemon || b == ArgId::Active || b
            == ArgId::ClearSession,
        ArgId::Freeze => b == ArgId::Daemon || b == ArgId::ClearSession || b
            == ArgId::SessionInfo,
        ArgId::ExitAfterCapture => b == ArgId::NoExitAfterCapture,
        ArgId::NoExitAfterCapture => b == ArgId::ExitAfterCapture,
        ArgId::ResumeSession => b == ArgId::NoResumeSession,
        ArgId::NoResumeSession => b == ArgId::ResumeSession,
        ArgId::About => b == ArgId::Daemon || b == ArgId::DaemonToggle || b == ArgId::Active
            || b == ArgId::Mode || b == ArgId::NoTray || b == ArgId::FreezeOnShow || b
            == ArgId::ClearSession || b == ArgId::SessionInfo || b == ArgId::Freeze || b
            == ArgId::ResumeSession || b == ArgId::NoResumeSession,
        _ => false,
    }
}

/// A pair of given arguments that exclude each other, if there is one.
fn first_conflict(c: &Cli) -> (r: Option<(ArgId, ArgId)>)
    ensures
        r is None <==> conflict_free(c@),
        r matches Some((a, b)) ==> has(c@, a) && has(c@, b) && conflicts(a, b),
{
    let ids = all_args();
    let mut i: usize = 0;
    while i < 15
        invariant
            i <= 15,
            ids@.len() == 15,
            forall|p: int, q: int| 0 <= p < i && 0 <= q < 15 ==> !(has(c@, #[trigger] ids@[p])
                && has(c@, #[trigger] ids@[q]) && conflicts(ids@[p], ids@[q])),
        decreases 15 - i,
    {
        let mut j: usize = 0;
        while j < 15
            invariant
                i < 15,
                j <= 15,
                ids@.len() == 15,
                forall|p: int, q: int| 0 <= p < i && 0 <= q < 15 ==> !(has(c@, #[trigger] ids@[p])
                    && has(c@, #[trigger] ids@[q]) && conflicts(ids@[p], ids@[q])),
                forall|q: int| 0 <= q < j ==> !(has(c@, ids@[i as int]) && has(c@, #[trigger] ids@[q])
                    && conflicts(ids@[i as int], ids@[q])),
            decreases 15 - j,
        {
            let a = ids[i];
            let b = ids[j];
            if c.has_arg(a) && c.has_arg(b) && (exec_declared_conflict(a, b) || exec_declared_conflict(b, a)) {
                return Some((a, b));
            }
            j = j + 1;
        }
        i = i + 1;
    }
    assert forall|a: ArgId, b: ArgId| has(c@, a) && has(c@, b) implies !conflicts(a, b) by {
        let p = arg_index(a);
        let q = arg_index(b);
        assert(ids@[p] == a);
        assert(ids@[q] == b);
    }
    None
}

} // verus!
