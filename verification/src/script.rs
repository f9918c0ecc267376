//! Running one of the user's `.bat` scripts, synchronously.
//!
//! The decisions form a small machine. The program starts it with
//! [`run_script`], then repeatedly carries out the action that [`ScriptRun::step`]
//! returns and hands back what came of it, until the action is `Finish`:
//!
//! 1. check that `<base>\script\<name>` is a file;
//! 2. if it is not, log that the script was skipped and finish;
//! 3. otherwise log the start, launch `cmd.exe /C "<path>"` without a window
//!    and wait for it, then log its exit code, or that it failed to start.
use vstd::prelude::*;

use crate::digits::{decimal, digits_value, lemma_decimal_value, push_decimal};
use crate::paths::{joined, script_dir_name, script_path};
use crate::wide::{lemma_utf16_round_trip, to_wide_nul, utf16, utf16_decode};

verus! {

/// Where a script run stands.
#[derive(Clone, Copy, Debug, PartialEq, Eq, Structural)]
pub enum ScriptStage {
    /// Nothing done yet.
    Start,
    /// Waiting to learn whether the script file exists.
    Checking,
    /// The start was logged; the script is to be launched.
    Announced,
    /// The script was launched; waiting for its end.
    Running,
    /// The final log line was handed out.
    Reported,
    /// Finished.
    Done,
}

/// What came of the previous action.
pub enum ScriptEvent {
    /// The run begins.
    Begin,
    /// Whether the script file exists.
    FileChecked(bool),
    /// The log line was written.
    Logged,
    /// The script ran to its end with this exit code, or could not be started
    /// for the reason given.
    Ran(Result<u32, String>),
}

/// What the program is to do next.
pub enum ScriptAction {
    /// Check whether this path is an existing file.
    CheckFile(String),
    /// Write this line to the log.
    Log(String),
    /// Start a process with this NUL-terminated UTF-16 command line, without a
    /// console window, and wait for it to end.
    Launch(Vec<u16>),
    /// The run is over.
    Finish,
}

/// A `ScriptEvent`, with its texts as character sequences.
pub enum ScriptEventView {
    Begin,
    FileChecked(bool),
    Logged,
    Ran(Result<u32, Seq<char>>),
}

/// A `ScriptAction`, with its texts as character sequences.
pub enum ScriptActionView {
    CheckFile(Seq<char>),
    Log(Seq<char>),
    Launch(Seq<u16>),
    Finish,
}

impl View for ScriptEvent {
    type V = ScriptEventView;

    open spec fn view(&self) -> ScriptEventView {
        match self {
            ScriptEvent::Begin => ScriptEventView::Begin,
            ScriptEvent::FileChecked(b) => ScriptEventView::FileChecked(*b),
            ScriptEvent::Logged => ScriptEventView::Logged,
            ScriptEvent::Ran(Ok(code)) => ScriptEventView::Ran(Ok(*code)),
            ScriptEvent::Ran(Err(e)) => ScriptEventView::Ran(Err(e@)),
        }
    }
}

impl View for ScriptAction {
    type V = ScriptActionView;

    open spec fn view(&self) -> ScriptActionView {
        match self {
            ScriptAction::CheckFile(p) => ScriptActionView::CheckFile(p@),
            ScriptAction::Log(s) => ScriptActionView::Log(s@),
            ScriptAction::Launch(c) => ScriptActionView::Launch(c@),
            ScriptAction::Finish => ScriptActionView::Finish,
        }
    }
}

/// `script skipped (not found): <name>`
pub open spec fn skipped_text(name: Seq<char>) -> Seq<char> {
    "script skipped (not found): "@ + name
}

/// `script start: <name>`
pub open spec fn start_text(name: Seq<char>) -> Seq<char> {
    "script start: "@ + name
}

/// `cmd.exe /C "<path>"`
pub open spec fn command_text(path: Seq<char>) -> Seq<char> {
    "cmd.exe /C \""@ + path + "\""@
}

/// `script done: <name> (exit code <code>)`
pub open spec fn done_text(name: Seq<char>, code: u32) -> Seq<char> {
    "script done: "@ + name + " (exit code "@ + decimal(code as nat) + ")"@
}

/// `script failed to start: <name> (<reason>)`
pub open spec fn failed_text(name: Seq<char>, reason: Seq<char>) -> Seq<char> {
    "script failed to start: "@ + name + " ("@ + reason + ")"@
}

/// The stage that follows `stage` on `event`; an event that does not fit the
/// stage ends the run.
pub open spec fn script_next(stage: ScriptStage, event: ScriptEventView) -> ScriptStage {
    match (stage, event) {
        (ScriptStage::Start, ScriptEventView::Begin) => ScriptStage::Checking,
        (ScriptStage::Checking, ScriptEventView::FileChecked(found)) => if found {
            ScriptStage::Announced
        } else {
            ScriptStage::Reported
        },
        (ScriptStage::Announced, ScriptEventView::Logged) => ScriptStage::Running,
        (ScriptStage::Running, ScriptEventView::Ran(_)) => ScriptStage::Reported,
        _ => ScriptStage::Done,
    }
}

/// The action taken in `stage` on `event`, for the script `name` at `path`.
pub open spec fn script_action(
    name: Seq<char>,
    path: Seq<char>,
    stage: ScriptStage,
    event: ScriptEventView,
) -> ScriptActionView {
    match (stage, event) {
        (ScriptStage::Start, ScriptEventView::Begin) => ScriptActionView::CheckFile(path),
        (ScriptStage::Checking, ScriptEventView::FileChecked(found)) => if found {
            ScriptActionView::Log(start_text(name))
        } else {
            ScriptActionView::Log(skipped_text(name))
        },
        (ScriptStage::Announced, ScriptEventView::Logged) => ScriptActionView::Launch(
            utf16(command_text(path)).push(0),
        ),
        (ScriptStage::Running, ScriptEventView::Ran(Ok(code))) => ScriptActionView::Log(
            done_text(name, code),
        ),
        (ScriptStage::Running, ScriptEventView::Ran(Err(reason))) => ScriptActionView::Log(
            failed_text(name, reason),
        ),
        _ => ScriptActionView::Finish,
    }
}

/// The order of the stages.
pub open spec fn script_rank(stage: ScriptStage) -> int {
    match stage {
        ScriptStage::Start => 0,
        ScriptStage::Checking => 1,
        ScriptStage::Announced => 2,
        ScriptStage::Running => 3,
        ScriptStage::Reported => 4,
        ScriptStage::Done => 5,
    }
}

/// One run of a script.
pub struct ScriptRun {
    name: String,
    path: String,
    stage: ScriptStage,
}

impl ScriptRun {
    /// The script's file name.
    pub closed spec fn name_text(&self) -> Seq<char> {
        self.name@
    }

    /// The script's path.
    pub closed spec fn path_text(&self) -> Seq<char> {
        self.path@
    }

    /// Where the run stands.
    pub closed spec fn stage_of(&self) -> ScriptStage {
        self.stage
    }

    /// Where the run stands.
    pub fn stage(&self) -> (r: ScriptStage)
        ensures
            r == self.stage_of(),
    {
        self.stage
    }

    /// Takes the next step on `event`: returns the action to carry out and
    /// moves to the next stage.
    pub fn step(&mut self, event: ScriptEvent) -> (r: ScriptAction)
        ensures
            final(self).name_text() == old(self).name_text(),
            final(self).path_text() == old(self).path_text(),
            final(self).stage_of() == script_next(old(self).stage_of(), event@),
            r@ == script_action(
                old(self).name_text(),
                old(self).path_text(),
                old(self).stage_of(),
                event@,
            ),
            old(self).stage_of() == ScriptStage::Announced && event@ is Logged ==> r@
                == ScriptActionView::Launch(
                utf16("cmd.exe /C \""@ + old(self).path_text() + "\""@).push(0),
            ),
    {
        match (self.stage, event) {
            (ScriptStage::Start, ScriptEvent::Begin) => {
                self.stage = ScriptStage::Checking;
                ScriptAction::CheckFile(self.path.clone())
            },
            (ScriptStage::Checking, ScriptEvent::FileChecked(found)) => {
                if found {
                    self.stage = ScriptStage::Announced;
                    let mut s = String::from_str("script start: ");
                    s.append(self.name.as_str());
                    ScriptAction::Log(s)
                } else {
                    self.stage = ScriptStage::Reported;
                    let mut s = String::from_str("script skipped (not found): ");
                    s.append(self.name.as_str());
                    ScriptAction::Log(s)
                }
            },
            (ScriptStage::Announced, ScriptEvent::Logged) => {
                self.stage = ScriptStage::Running;
                let mut cmd = String::from_str("cmd.exe /C \"");
                cmd.append(self.path.as_str());
                cmd.append("\"");
                ScriptAction::Launch(to_wide_nul(cmd.as_str()))
            },
            (ScriptStage::Running, ScriptEvent::Ran(outcome)) => {
                self.stage = ScriptStage::Reported;
                match outcome {
                    Ok(code) => {
                        let mut s = String::from_str("script done: ");
                        s.append(self.name.as_str());
                        s.append(" (exit code ");
                        push_decimal(&mut s, code as u64);
                        s.append(")");
                        ScriptAction::Log(s)
                    },
                    Err(reason) => {
                        let mut s = String::from_str("script failed to start: ");
                        s.append(self.name.as_str());
                        s.append(" (");
                        s.append(reason.as_str());
                        s.append(")");
                        ScriptAction::Log(s)
                    },
                }
            },
            _ => {
                self.stage = ScriptStage::Done;
                ScriptAction::Finish
            },
        }
    }
}

/// Starts a run of the script `name` (such as `login.bat`) of the data
/// directory `base`.
pub fn run_script(base: &str, name: &str) -> (r: ScriptRun)
    ensures
        r.name_text() == name@,
        r.path_text() == joined(joined(base@, script_dir_name()), name@),
        r.path_text() == joined(joined(base@, "script"@), name@),
        r.stage_of() == ScriptStage::Start,
{
    ScriptRun { name: String::from_str(name), path: script_path(base, name), stage: ScriptStage::Start }
}

/// Every step of an unfinished run moves it forward, so a run finishes after
/// at most six steps.
pub proof fn lemma_script_run_advances(stage: ScriptStage, event: ScriptEventView)
    requires
        stage != ScriptStage::Done,
    ensures
        script_rank(script_next(stage, event)) > script_rank(stage),
        script_rank(script_next(stage, event)) <= 5,
{
}

/// A script is launched only in the stage after its start was logged, and
/// that stage is reached only when its file was found.
pub proof fn lemma_launch_only_when_found(
    name: Seq<char>,
    path: Seq<char>,
    stage: ScriptStage,
    event: ScriptEventView,
)
    ensures
        script_action(name, path, stage, event) is Launch ==> stage == ScriptStage::Announced,
        script_next(stage, event) == ScriptStage::Announced ==> (stage == ScriptStage::Checking
            && event == ScriptEventView::FileChecked(true)),
{
}

/// A missing script is logged as skipped and the run ends with the next step,
/// whatever comes back: it is never launched.
pub proof fn lemma_missing_script_is_skipped(
    name: Seq<char>,
    path: Seq<char>,
    next_event: ScriptEventView,
)
    ensures
        script_action(name, path, ScriptStage::Checking, ScriptEventView::FileChecked(false))
            == ScriptActionView::Log(skipped_text(name)),
        script_next(ScriptStage::Checking, ScriptEventView::FileChecked(false))
            == ScriptStage::Reported,
        script_action(name, path, ScriptStage::Reported, next_event) == ScriptActionView::Finish,
        script_next(ScriptStage::Reported, next_event) == ScriptStage::Done,
{
}

/// The script is launched as `cmd.exe /C "<path>"`: whatever characters the
/// path holds (spaces among them), it stands whole between two quotes, so
/// `cmd.exe` runs that one file. The launch hands over the UTF-16 units of
/// that command line and a terminating zero, and decoding the units before
/// the zero gives the command line back.
pub proof fn lemma_launch_quotes_path(name: Seq<char>, path: Seq<char>)
    ensures
        command_text(path) == "cmd.exe /C \""@ + path + "\""@,
        script_action(name, path, ScriptStage::Announced, ScriptEventView::Logged)
            == ScriptActionView::Launch(utf16("cmd.exe /C \""@ + path + "\""@).push(0)),
        utf16("cmd.exe /C \""@ + path + "\""@).push(0).last() == 0u16,
        utf16_decode(utf16("cmd.exe /C \""@ + path + "\""@)) == "cmd.exe /C \""@ + path
            + "\""@,
        ("cmd.exe /C \""@ + path + "\""@).len() == path.len() + 13,
        ("cmd.exe /C \""@ + path + "\""@).subrange(0, 11) == "cmd.exe /C "@,
        ("cmd.exe /C \""@ + path + "\""@)[11] == '"',
        ("cmd.exe /C \""@ + path + "\""@).subrange(12, path.len() as int + 12) == path,
        ("cmd.exe /C \""@ + path + "\""@)[path.len() as int + 12] == '"',
{
    reveal_strlit("cmd.exe /C \"");
    reveal_strlit("cmd.exe /C ");
    reveal_strlit("\"");
    let t = "cmd.exe /C \""@ + path + "\""@;
    lemma_utf16_round_trip(t);
    assert(t.subrange(0, 11) =~= "cmd.exe /C "@);
    assert(t.subrange(12, path.len() as int + 12) =~= path);
}

/// What the log says of a script run: the path is checked first; the start,
/// a missing file, the end and a failure to start are each logged with the
/// script's name; the end with the exit code in decimal, which reads back as
/// that code; a failure with its reason in brackets.
pub proof fn lemma_script_log_lines(
    name: Seq<char>,
    path: Seq<char>,
    code: u32,
    reason: Seq<char>,
)
    ensures
        script_action(name, path, ScriptStage::Start, ScriptEventView::Begin)
            == ScriptActionView::CheckFile(path),
        script_action(name, path, ScriptStage::Checking, ScriptEventView::FileChecked(true))
            == ScriptActionView::Log("script start: "@ + name),
        script_action(name, path, ScriptStage::Checking, ScriptEventView::FileChecked(false))
            == ScriptActionView::Log("script skipped (not found): "@ + name),
        script_action(name, path, ScriptStage::Running, ScriptEventView::Ran(Ok(code)))
            == ScriptActionView::Log(
            "script done: "@ + name + " (exit code "@ + decimal(code as nat) + ")"@,
        ),
        digits_value(decimal(code as nat)) == code,
        script_action(name, path, ScriptStage::Running, ScriptEventView::Ran(Err(reason)))
            == ScriptActionView::Log("script failed to start: "@ + name + " ("@ + reason + ")"@),
{
    lemma_decimal_value(code as nat);
}

} // verus!
