//! The program's top level: what the command line asks for, what a normal
//! run does, and what the user is told.
use vstd::prelude::*;

use crate::logging::same_text;

verus! {

/// What the program was asked to do.
#[derive(Clone, Copy, Debug, PartialEq, Eq, Structural)]
pub enum Command {
    /// `--install`: install the program for the current user.
    Install,
    /// `--run`: the normal run, started at login.
    Run,
    /// Anything else: show how to use the program.
    Usage,
}

/// The command that the first argument names.
pub open spec fn command_of(arg: Option<Seq<char>>) -> Command {
    match arg {
        Some(a) => if a == "--install"@ {
            Command::Install
        } else if a == "--run"@ {
            Command::Run
        } else {
            Command::Usage
        },
        None => Command::Usage,
    }
}

/// The command that the first command-line argument, if any, names.
pub fn command(arg: Option<&str>) -> (r: Command)
    ensures
        r == command_of(match arg {
            Some(a) => Some(a@),
            None => None,
        }),
{
    match arg {
        Some(a) => if same_text(a, "--install") {
            Command::Install
        } else if same_text(a, "--run") {
            Command::Run
        } else {
            Command::Usage
        },
        None => Command::Usage,
    }
}

/// The icon of a message box.
#[derive(Clone, Copy, Debug, PartialEq, Eq, Structural)]
pub enum MessageIcon {
    Information,
    Error,
}

/// What the user and the log are told at the end of an installation.
pub struct InstallReport {
    /// The log line.
    pub log: String,
    /// The text of the message box.
    pub text: String,
    /// The icon of the message box.
    pub icon: MessageIcon,
}

/// `install failed: <reason>`
pub open spec fn install_failed_log(reason: Seq<char>) -> Seq<char> {
    "install failed: "@ + reason
}

/// `安装失败:` and the reason on the next line.
pub open spec fn install_failed_box(reason: Seq<char>) -> Seq<char> {
    "安装失败:\n"@ + reason
}

/// What the user and the log are told after an installation with `outcome`.
pub fn install_report(outcome: &Result<(), String>) -> (r: InstallReport)
    ensures
        match outcome {
            Ok(()) => r.log@ == "install completed"@ && r.text@ == "pm-win-shutdown 安装完成."@
                && r.icon == MessageIcon::Information,
            Err(e) => r.log@ == install_failed_log(e@) && r.text@ == install_failed_box(e@) && r.icon
                == MessageIcon::Error,
        },
{
    match outcome {
        Ok(()) => InstallReport {
            log: String::from_str("install completed"),
            text: String::from_str("pm-win-shutdown 安装完成."),
            icon: MessageIcon::Information,
        },
        Err(e) => {
            let mut log = String::from_str("install failed: ");
            log.append(e.as_str());
            let mut text = String::from_str("安装失败:\n");
            text.append(e.as_str());
            InstallReport { log, text, icon: MessageIcon::Error }
        },
    }
}

/// How to use the program, shown with the information icon.
pub fn usage_text() -> (r: &'static str)
    ensures
        r@ == "用法:\n  pm-win-shutdown.exe --install   安装\n  pm-win-shutdown.exe --run       运行"@,
{
    "用法:\n  pm-win-shutdown.exe --install   安装\n  pm-win-shutdown.exe --run       运行"
}

/// The shutdown level the program asks for: the highest, so that the system
/// asks this program first when the session ends (ordinary programs have
/// 0x280).
pub const SHUTDOWN_LEVEL: u32 = 0x3FF;

/// `SetProcessShutdownParameters failed: <reason>`
pub open spec fn shutdown_level_failed_text(reason: Seq<char>) -> Seq<char> {
    "SetProcessShutdownParameters failed: "@ + reason
}

/// The log line after asking for `SHUTDOWN_LEVEL`, with `outcome`.
pub fn shutdown_level_report(outcome: &Result<(), String>) -> (r: String)
    ensures
        match outcome {
            Ok(()) => r@ == "shutdown priority set to 0x3FF (highest, shut down first)"@,
            Err(e) => r@ == shutdown_level_failed_text(e@),
        },
{
    match outcome {
        Ok(()) => String::from_str("shutdown priority set to 0x3FF (highest, shut down first)"),
        Err(e) => {
            let mut s = String::from_str("SetProcessShutdownParameters failed: ");
            s.append(e.as_str());
            s
        },
    }
}

/// One step of a normal run.
pub enum RunStep {
    /// Write this line to the log.
    Log(String),
    /// Ask the system for `SHUTDOWN_LEVEL`, and log the outcome.
    RaiseShutdownLevel,
    /// Run the user's script of this name.
    RunScript(String),
    /// Show the window and answer the system's messages until the session ends.
    RunWindow,
}

/// A `RunStep`, with its texts as character sequences.
pub enum RunStepView {
    Log(Seq<char>),
    RaiseShutdownLevel,
    RunScript(Seq<char>),
    RunWindow,
}

impl View for RunStep {
    type V = RunStepView;

    open spec fn view(&self) -> RunStepView {
        match self {
            RunStep::Log(s) => RunStepView::Log(s@),
            RunStep::RaiseShutdownLevel => RunStepView::RaiseShutdownLevel,
            RunStep::RunScript(s) => RunStepView::RunScript(s@),
            RunStep::RunWindow => RunStepView::RunWindow,
        }
    }
}

/// The steps of a normal run, in order.
pub open spec fn run_steps() -> Seq<RunStepView> {
    seq![
        RunStepView::Log("pm-win-shutdown started (--run)"@),
        RunStepView::RaiseShutdownLevel,
        RunStepView::RunScript("login.bat"@),
        RunStepView::RunWindow,
        RunStepView::Log("pm-win-shutdown exiting"@),
    ]
}

/// The normal run (`--run`), started at login: log the start, ask to be
/// asked first at shutdown, run `login.bat`, serve the window until the
/// session ends, log the exit.
pub fn run() -> (r: Vec<RunStep>)
    ensures
        r@.map_values(|s: RunStep| s@) == run_steps(),
{
    let mut v: Vec<RunStep> = Vec::new();
    v.push(RunStep::Log(String::from_str("pm-win-shutdown started (--run)")));
    v.push(RunStep::RaiseShutdownLevel);
    v.push(RunStep::RunScript(String::from_str("login.bat")));
    v.push(RunStep::RunWindow);
    v.push(RunStep::Log(String::from_str("pm-win-shutdown exiting")));
    proof {
        assert(v@.map_values(|s: RunStep| s@) =~= run_steps());
    }
    v
}

/// The log lines of the shutdown handler, which then ends the process with
/// exit code 0. The window starts the handler only after `logout.bat` has
/// run to its end (see `window::reply_effects` and
/// `window::lemma_logout_runs_first`), so the script always finishes before
/// the process exits.
pub fn run_shutdown() -> (r: Vec<String>)
    ensures
        r@.len() == 2,
        r@[0]@ == "system message: WM_QUERYENDSESSION (shutdown/restart/logoff) (run_shutdown)"@,
        r@[1]@ == "run_shutdown exit 0"@,
{
    let mut v: Vec<String> = Vec::new();
    v.push(
        String::from_str("system message: WM_QUERYENDSESSION (shutdown/restart/logoff) (run_shutdown)"),
    );
    v.push(String::from_str("run_shutdown exit 0"));
    v
}

} // verus!
