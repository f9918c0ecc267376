//! Installing the program for the current user.
//!
//! Installation copies the running program to `<base>\pm-win-shutdown.exe`
//! (unless it already runs from there) and registers that copy to start with
//! `--run` at every login, in
//! `HKEY_CURRENT_USER\Software\Microsoft\Windows\CurrentVersion\Run`, under the
//! value name `pm-win-shutdown`. Any failure stops the installation with its
//! reason.
//!
//! The decisions form a small machine. The program starts it with
//! [`install_self`], carries out the action that [`Install::step`] returns and
//! hands back what came of it, until the action is `Finish`.
use vstd::prelude::*;

use crate::digits::{decimal, digits_value, lemma_decimal_value, push_decimal};
use crate::paths::{exe_name, installed_exe, joined, script_dir, script_dir_name};
use crate::wide::{
    le_bytes, lemma_le_bytes_recover, lemma_utf16_round_trip, to_wide_nul, utf16, utf16_decode,
    wide_le_bytes,
};

verus! {

/// Where an installation stands.
#[derive(Clone, Copy, Debug, PartialEq, Eq, Structural)]
pub enum InstallStage {
    /// Nothing done yet.
    Start,
    /// Waiting for the script directory to be created.
    CreatingDir,
    /// Waiting for the path of the running program.
    LocatingExe,
    /// Waiting to learn whether the running program is the installed one.
    ComparingPaths,
    /// Waiting for the copy of the program.
    Copying,
    /// The installation was logged.
    LoggedInstall,
    /// Waiting for the registry key to be opened.
    OpeningKey,
    /// Waiting for the registry value to be written.
    SettingValue,
    /// The registry entry was logged.
    LoggedRegistry,
    /// Finished.
    Done,
}

/// What came of the previous action.
pub enum InstallEvent {
    /// The installation begins.
    Begin,
    /// The action succeeded (a directory, a copy, a log line).
    Done,
    /// The action failed, for this reason.
    Failed(String),
    /// The running program is at this path.
    Located(String),
    /// Whether the two compared paths name the same file.
    Compared(bool),
    /// The registry call returned this `WIN32_ERROR` code (0 is success).
    Code(u32),
}

/// What the program is to do next.
pub enum InstallAction {
    /// Create this directory and all its parents.
    CreateDir(String),
    /// Find the path of the running program.
    LocateExe,
    /// Tell whether the paths `a` and `b` name the same file (see [`same_path`]).
    ComparePaths { a: String, b: String },
    /// Copy the file `from` to `to`.
    Copy { from: String, to: String },
    /// Write this line to the log.
    Log(String),
    /// Create or open the per-user `Run` key for writing.
    OpenRunKey,
    /// Write these bytes as the `REG_SZ` value `pm-win-shutdown` of the open
    /// key, then close the key.
    SetRunValue(Vec<u8>),
    /// The installation is over, with this outcome.
    Finish(Result<(), String>),
}

/// An `InstallEvent`, with its texts as character sequences.
pub enum InstallEventView {
    Begin,
    Done,
    Failed(Seq<char>),
    Located(Seq<char>),
    Compared(bool),
    Code(u32),
}

/// An `InstallAction`, with its texts as character sequences.
pub enum InstallActionView {
    CreateDir(Seq<char>),
    LocateExe,
    ComparePaths { a: Seq<char>, b: Seq<char> },
    Copy { from: Seq<char>, to: Seq<char> },
    Log(Seq<char>),
    OpenRunKey,
    SetRunValue(Seq<u8>),
    Finish(Result<(), Seq<char>>),
}

impl View for InstallEvent {
    type V = InstallEventView;

    open spec fn view(&self) -> InstallEventView {
        match self {
            InstallEvent::Begin => InstallEventView::Begin,
            InstallEvent::Done => InstallEventView::Done,
            InstallEvent::Failed(e) => InstallEventView::Failed(e@),
            InstallEvent::Located(p) => InstallEventView::Located(p@),
            InstallEvent::Compared(b) => InstallEventView::Compared(*b),
            InstallEvent::Code(c) => InstallEventView::Code(*c),
        }
    }
}

impl View for InstallAction {
    type V = InstallActionView;

    open spec fn view(&self) -> InstallActionView {
        match self {
            InstallAction::CreateDir(d) => InstallActionView::CreateDir(d@),
            InstallAction::LocateExe => InstallActionView::LocateExe,
            InstallAction::ComparePaths { a, b } => InstallActionView::ComparePaths { a: a@, b: b@ },
            InstallAction::Copy { from, to } => InstallActionView::Copy { from: from@, to: to@ },
            InstallAction::Log(s) => InstallActionView::Log(s@),
            InstallAction::OpenRunKey => InstallActionView::OpenRunKey,
            InstallAction::SetRunValue(b) => InstallActionView::SetRunValue(b@),
            InstallAction::Finish(Ok(())) => InstallActionView::Finish(Ok(())),
            InstallAction::Finish(Err(e)) => InstallActionView::Finish(Err(e@)),
        }
    }
}

/// `"<dst>" --run`: the command line that the `Run` entry starts.
pub open spec fn run_command_text(dst: Seq<char>) -> Seq<char> {
    "\""@ + dst + "\" --run"@
}

/// The bytes of the `Run` value: the command line in UTF-16, NUL-terminated,
/// little-endian.
pub open spec fn run_value_bytes(dst: Seq<char>) -> Seq<u8> {
    le_bytes(utf16(run_command_text(dst)).push(0))
}

/// `installed to <dst>`
pub open spec fn installed_text(dst: Seq<char>) -> Seq<char> {
    "installed to "@ + dst
}

/// The log line after the `Run` entry was written.
pub open spec fn registry_text() -> Seq<char> {
    "registry Run entry written (HKEY_CURRENT_USER\\Software\\Microsoft\\Windows\\CurrentVersion\\Run\\pm-win-shutdown)"@
}

/// `copy failed: <reason>`
pub open spec fn copy_failed_text(reason: Seq<char>) -> Seq<char> {
    "copy failed: "@ + reason
}

/// `RegCreateKeyExW failed (<code>)`
pub open spec fn open_key_failed_text(code: u32) -> Seq<char> {
    "RegCreateKeyExW failed ("@ + decimal(code as nat) + ")"@
}

/// `RegSetValueExW failed (<code>)`
pub open spec fn set_value_failed_text(code: u32) -> Seq<char> {
    "RegSetValueExW failed ("@ + decimal(code as nat) + ")"@
}

/// The stage that follows `stage` on `event`. An event that does not fit the
/// stage ends the installation.
pub open spec fn install_next(stage: InstallStage, event: InstallEventView) -> InstallStage {
    match (stage, event) {
        (InstallStage::Start, InstallEventView::Begin) => InstallStage::CreatingDir,
        (InstallStage::CreatingDir, InstallEventView::Done) => InstallStage::LocatingExe,
        (InstallStage::LocatingExe, InstallEventView::Located(_)) => InstallStage::ComparingPaths,
        (InstallStage::ComparingPaths, InstallEventView::Compared(same)) => if same {
            InstallStage::LoggedInstall
        } else {
            InstallStage::Copying
        },
        (InstallStage::Copying, InstallEventView::Done) => InstallStage::LoggedInstall,
        (InstallStage::LoggedInstall, InstallEventView::Done) => InstallStage::OpeningKey,
        (InstallStage::OpeningKey, InstallEventView::Code(c)) => if c == 0 {
            InstallStage::SettingValue
        } else {
            InstallStage::Done
        },
        (InstallStage::SettingValue, InstallEventView::Code(c)) => if c == 0 {
            InstallStage::LoggedRegistry
        } else {
            InstallStage::Done
        },
        _ => InstallStage::Done,
    }
}

/// The path of the running program that the installation knows after `event`
/// in `stage`, having known `exe` before.
pub open spec fn install_exe_next(exe: Seq<char>, stage: InstallStage, event: InstallEventView) -> Seq<
    char,
> {
    match (stage, event) {
        (InstallStage::LocatingExe, InstallEventView::Located(src)) => src,
        _ => exe,
    }
}

/// The action taken in `stage` on `event`, installing into `dst` with the
/// script directory `script_dir`, the running program being at `exe`.
pub open spec fn install_action(
    dst: Seq<char>,
    script_dir: Seq<char>,
    exe: Seq<char>,
    stage: InstallStage,
    event: InstallEventView,
) -> InstallActionView {
    match (stage, event) {
        (InstallStage::Start, InstallEventView::Begin) => InstallActionView::CreateDir(script_dir),
        (InstallStage::CreatingDir, InstallEventView::Done) => InstallActionView::LocateExe,
        (InstallStage::CreatingDir, InstallEventView::Failed(e)) => InstallActionView::Finish(
            Err(e),
        ),
        (InstallStage::LocatingExe, InstallEventView::Located(src)) => {
            InstallActionView::ComparePaths { a: src, b: dst }
        },
        (InstallStage::LocatingExe, InstallEventView::Failed(e)) => InstallActionView::Finish(
            Err(e),
        ),
        (InstallStage::ComparingPaths, InstallEventView::Compared(same)) => if same {
            InstallActionView::Log(installed_text(dst))
        } else {
            InstallActionView::Copy { from: exe, to: dst }
        },
        (InstallStage::Copying, InstallEventView::Done) => InstallActionView::Log(
            installed_text(dst),
        ),
        (InstallStage::Copying, InstallEventView::Failed(e)) => InstallActionView::Finish(
            Err(copy_failed_text(e)),
        ),
        (InstallStage::LoggedInstall, InstallEventView::Done) => InstallActionView::OpenRunKey,
        (InstallStage::OpeningKey, InstallEventView::Code(c)) => if c == 0 {
            InstallActionView::SetRunValue(run_value_bytes(dst))
        } else {
            InstallActionView::Finish(Err(open_key_failed_text(c)))
        },
        (InstallStage::SettingValue, InstallEventView::Code(c)) => if c == 0 {
            InstallActionView::Log(registry_text())
        } else {
            InstallActionView::Finish(Err(set_value_failed_text(c)))
        },
        (InstallStage::LoggedRegistry, InstallEventView::Done) => InstallActionView::Finish(Ok(())),
        _ => InstallActionView::Finish(Err("installation step out of order"@)),
    }
}

/// The order of the stages.
pub open spec fn install_rank(stage: InstallStage) -> int {
    match stage {
        InstallStage::Start => 0,
        InstallStage::CreatingDir => 1,
        InstallStage::LocatingExe => 2,
        InstallStage::ComparingPaths => 3,
        InstallStage::Copying => 4,
        InstallStage::LoggedInstall => 5,
        InstallStage::OpeningKey => 6,
        InstallStage::SettingValue => 7,
        InstallStage::LoggedRegistry => 8,
        InstallStage::Done => 9,
    }
}

/// The pieces of `s` between `/` separators, empty pieces included.
pub open spec fn slash_pieces(s: Seq<char>) -> Seq<Seq<char>>
    decreases s.len(),
{
    if s.len() == 0 {
        seq![seq![]]
    } else {
        let p = slash_pieces(s.drop_last());
        if s.last() == '/' {
            p.push(seq![])
        } else {
            p.update(p.len() - 1, p.last().push(s.last()))
        }
    }
}

/// The components of `s` written with `/`: its non-empty pieces.
pub open spec fn slash_words(s: Seq<char>) -> Seq<Seq<char>> {
    slash_pieces(s).filter(|w: Seq<char>| w.len() > 0)
}

/// Whether `s` starts at the root.
pub open spec fn starts_at_root(s: Seq<char>) -> bool {
    s.len() > 0 && s[0] == '/'
}

/// A path that every platform reads alike: written with `/` only, without
/// `\` or `:` (so without a drive or other prefix), not starting with `//`,
/// and without a `.` component.
pub open spec fn is_portable_path(s: Seq<char>) -> bool {
    &&& forall|i: int| 0 <= i < s.len() ==> #[trigger] s[i] != '\\' && s[i] != ':'
    &&& !(s.len() >= 2 && s[0] == '/' && s[1] == '/')
    &&& forall|i: int| 0 <= i < slash_pieces(s).len() ==> #[trigger] slash_pieces(s)[i] != seq!['.']
}

/// Whether two paths name the same file path.
///
/// Calls `std::path::Path::eq`, which compares the paths component by
/// component, as `Path::components` yields them, and does not panic. The
/// contract claims what holds on every platform: the same text is the same
/// path; and two portable paths (see `is_portable_path`) are the same
/// exactly when both or neither start at the root and they have the same
/// components, since `Path::components` ignores repeated and trailing
/// separators. How other paths (with `\`, drives, `\\server\share`, `.`) are
/// compared depends on the platform the program runs on, and is not stated.
#[verifier::external_body]
fn paths_equal(a: &str, b: &str) -> (r: bool)
    ensures
        a@ == b@ ==> r,
        is_portable_path(a@) && is_portable_path(b@) ==> (r <==> (starts_at_root(a@)
            == starts_at_root(b@) && slash_words(a@) == slash_words(b@))),
{
    std::path::Path::new(a) == std::path::Path::new(b)
}

/// Whether `a` and `b` name the same file path, component by component as
/// `Path::eq` compares them (the answer to a `ComparePaths` action): the
/// same text is always the same path, and two portable paths are the same
/// exactly when they agree on the root and on their components.
pub fn same_path(a: &str, b: &str) -> (r: bool)
    ensures
        a@ == b@ ==> r,
        is_portable_path(a@) && is_portable_path(b@) ==> (r <==> (starts_at_root(a@)
            == starts_at_root(b@) && slash_words(a@) == slash_words(b@))),
{
    paths_equal(a, b)
}

/// The bytes of the `Run` value for the program installed at `dst`.
pub fn run_value(dst: &str) -> (r: Vec<u8>)
    ensures
        r@ == run_value_bytes(dst@),
        r@ == le_bytes(utf16("\""@ + dst@ + "\" --run"@).push(0)),
{
    let mut cmd = String::from_str("\"");
    cmd.append(dst);
    cmd.append("\" --run");
    let units = to_wide_nul(cmd.as_str());
    wide_le_bytes(&units)
}

/// One installation.
pub struct Install {
    dst: String,
    script_dir: String,
    exe: String,
    stage: InstallStage,
}

impl Install {
    /// Where the program is installed.
    pub closed spec fn dst_text(&self) -> Seq<char> {
        self.dst@
    }

    /// The directory of the user's scripts.
    pub closed spec fn script_dir_text(&self) -> Seq<char> {
        self.script_dir@
    }

    /// The path of the running program, once it was located.
    pub closed spec fn exe_text(&self) -> Seq<char> {
        self.exe@
    }

    /// Where the installation stands.
    pub closed spec fn stage_of(&self) -> InstallStage {
        self.stage
    }

    /// Where the installation stands.
    pub fn stage(&self) -> (r: InstallStage)
        ensures
            r == self.stage_of(),
    {
        self.stage
    }

    /// Takes the next step on `event`: returns the action to carry out and
    /// moves to the next stage.
    pub fn step(&mut self, event: InstallEvent) -> (r: InstallAction)
        ensures
            final(self).dst_text() == old(self).dst_text(),
            final(self).script_dir_text() == old(self).script_dir_text(),
            final(self).exe_text() == install_exe_next(
                old(self).exe_text(),
                old(self).stage_of(),
                event@,
            ),
            final(self).stage_of() == install_next(old(self).stage_of(), event@),
            r@ == install_action(
                old(self).dst_text(),
                old(self).script_dir_text(),
                old(self).exe_text(),
                old(self).stage_of(),
                event@,
            ),
    {
        match (self.stage, event) {
            (InstallStage::Start, InstallEvent::Begin) => {
                self.stage = InstallStage::CreatingDir;
                InstallAction::CreateDir(self.script_dir.clone())
            },
            (InstallStage::CreatingDir, InstallEvent::Done) => {
                self.stage = InstallStage::LocatingExe;
                InstallAction::LocateExe
            },
            (InstallStage::LocatingExe, InstallEvent::Located(src)) => {
                self.stage = InstallStage::ComparingPaths;
                self.exe = src.clone();
                InstallAction::ComparePaths { a: src, b: self.dst.clone() }
            },
            (InstallStage::ComparingPaths, InstallEvent::Compared(same)) => {
                if same {
                    self.stage = InstallStage::LoggedInstall;
                    let mut s = String::from_str("installed to ");
                    s.append(self.dst.as_str());
                    InstallAction::Log(s)
                } else {
                    self.stage = InstallStage::Copying;
                    InstallAction::Copy { from: self.exe.clone(), to: self.dst.clone() }
                }
            },
            (InstallStage::Copying, InstallEvent::Done) => {
                self.stage = InstallStage::LoggedInstall;
                let mut s = String::from_str("installed to ");
                s.append(self.dst.as_str());
                InstallAction::Log(s)
            },
            (InstallStage::LoggedInstall, InstallEvent::Done) => {
                self.stage = InstallStage::OpeningKey;
                InstallAction::OpenRunKey
            },
            (InstallStage::OpeningKey, InstallEvent::Code(c)) => {
                if c == 0 {
                    self.stage = InstallStage::SettingValue;
                    InstallAction::SetRunValue(run_value(self.dst.as_str()))
                } else {
                    self.stage = InstallStage::Done;
                    let mut s = String::from_str("RegCreateKeyExW failed (");
                    push_decimal(&mut s, c as u64);
                    s.append(")");
                    InstallAction::Finish(Err(s))
                }
            },
            (InstallStage::SettingValue, InstallEvent::Code(c)) => {
                if c == 0 {
                    self.stage = InstallStage::LoggedRegistry;
                    InstallAction::Log(String::from_str(
                        "registry Run entry written (HKEY_CURRENT_USER\\Software\\Microsoft\\Windows\\CurrentVersion\\Run\\pm-win-shutdown)",
                    ))
                } else {
                    self.stage = InstallStage::Done;
                    let mut s = String::from_str("RegSetValueExW failed (");
                    push_decimal(&mut s, c as u64);
                    s.append(")");
                    InstallAction::Finish(Err(s))
                }
            },
            (InstallStage::LoggedRegistry, InstallEvent::Done) => {
                self.stage = InstallStage::Done;
                InstallAction::Finish(Ok(()))
            },
            (InstallStage::CreatingDir, InstallEvent::Failed(e))
            | (InstallStage::LocatingExe, InstallEvent::Failed(e)) => {
                self.stage = InstallStage::Done;
                InstallAction::Finish(Err(e))
            },
            (InstallStage::Copying, InstallEvent::Failed(e)) => {
                self.stage = InstallStage::Done;
                let mut s = String::from_str("copy failed: ");
                s.append(e.as_str());
                InstallAction::Finish(Err(s))
            },
            _ => {
                self.stage = InstallStage::Done;
                InstallAction::Finish(Err(String::from_str("installation step out of order")))
            },
        }
    }
}

/// Starts the installation into the data directory `base`.
pub fn install_self(base: &str) -> (r: Install)
    ensures
        r.dst_text() == joined(base@, exe_name()),
        r.script_dir_text() == joined(base@, script_dir_name()),
        r.dst_text() == joined(base@, "pm-win-shutdown.exe"@),
        r.script_dir_text() == joined(base@, "script"@),
        r.exe_text() == Seq::<char>::empty(),
        r.stage_of() == InstallStage::Start,
{
    Install {
        dst: installed_exe(base),
        script_dir: script_dir(base),
        exe: String::new(),
        stage: InstallStage::Start,
    }
}

/// Every step of an unfinished installation moves it forward, so it finishes
/// after at most ten steps.
pub proof fn lemma_install_advances(stage: InstallStage, event: InstallEventView)
    requires
        stage != InstallStage::Done,
    ensures
        install_rank(install_next(stage, event)) > install_rank(stage),
        install_rank(install_next(stage, event)) <= 9,
{
}

/// A reported failure ends the installation at once, with the reason (after
/// `copy failed: ` for the copy); so does a non-zero registry code.
pub proof fn lemma_failures_abort(
    dst: Seq<char>,
    script_dir: Seq<char>,
    exe: Seq<char>,
    stage: InstallStage,
    event: InstallEventView,
)
    requires
        stage != InstallStage::Done,
        (event is Failed) || (event matches InstallEventView::Code(c) && c != 0),
    ensures
        install_next(stage, event) == InstallStage::Done,
        (install_action(dst, script_dir, exe, stage, event) matches InstallActionView::Finish(
            Err(_),
        )),
        (stage == InstallStage::Copying && (event is Failed)) ==> install_action(
            dst,
            script_dir,
            exe,
            stage,
            event,
        ) == InstallActionView::Finish(Err(copy_failed_text(event->Failed_0))),
{
}

/// Success is reported only at the end: after the `Run` value was written
/// (code 0), which comes only after the key was opened (code 0); and the
/// value written is always the quoted installed path followed by `--run`.
pub proof fn lemma_success_only_after_registry(
    dst: Seq<char>,
    script_dir: Seq<char>,
    exe: Seq<char>,
    stage: InstallStage,
    event: InstallEventView,
)
    ensures
        install_action(dst, script_dir, exe, stage, event) == InstallActionView::Finish(Ok(()))
            ==> stage == InstallStage::LoggedRegistry,
        install_next(stage, event) == InstallStage::LoggedRegistry ==> (stage
            == InstallStage::SettingValue && event == InstallEventView::Code(0)),
        install_next(stage, event) == InstallStage::SettingValue ==> (stage
            == InstallStage::OpeningKey && event == InstallEventView::Code(0)),
        (install_action(dst, script_dir, exe, stage, event) is SetRunValue) ==> install_action(
            dst,
            script_dir,
            exe,
            stage,
            event,
        ) == InstallActionView::SetRunValue(run_value_bytes(dst)),
{
}

/// The program is copied exactly when the running program is not the
/// installed one: the located path is compared with the installed path, and
/// only a negative answer leads to a copy, from the located path to the
/// installed one.
pub proof fn lemma_copy_only_when_elsewhere(
    dst: Seq<char>,
    script_dir: Seq<char>,
    exe: Seq<char>,
    src: Seq<char>,
    same: bool,
)
    ensures
        install_action(dst, script_dir, exe, InstallStage::LocatingExe, InstallEventView::Located(src))
            == (InstallActionView::ComparePaths { a: src, b: dst }),
        install_exe_next(exe, InstallStage::LocatingExe, InstallEventView::Located(src)) == src,
        install_action(dst, script_dir, src, InstallStage::ComparingPaths, InstallEventView::Compared(same))
            == if same {
            InstallActionView::Log(installed_text(dst))
        } else {
            InstallActionView::Copy { from: src, to: dst }
        },
{
}

/// Installing twice from one data directory does the same: every directory,
/// copy target, log line and registry value that one installation hands out
/// in a stage on an event, another one from the same base hands out too.
pub proof fn lemma_install_repeatable(
    base: Seq<char>,
    exe: Seq<char>,
    stage: InstallStage,
    event: InstallEventView,
)
    ensures
        ({
            let dst = joined(base, exe_name());
            let sd = joined(base, script_dir_name());
            &&& install_action(dst, sd, exe, stage, event) is SetRunValue ==> install_action(
                dst,
                sd,
                exe,
                stage,
                event,
            ) == InstallActionView::SetRunValue(run_value_bytes(dst))
            &&& install_action(dst, sd, exe, stage, event) is CreateDir ==> install_action(
                dst,
                sd,
                exe,
                stage,
                event,
            ) == InstallActionView::CreateDir(sd)
            &&& install_action(dst, sd, exe, stage, event) matches InstallActionView::Copy {
                to,
                ..
            } ==> to == dst
        }),
{
}

/// The `Run` value starts the installed copy with `--run`, its path quoted:
/// read back as Windows reads it (each code unit from its two little-endian
/// bytes, up to the terminating zero unit), the value is `"<dst>" --run`,
/// with `dst` whole between the quotes whatever characters it holds (spaces
/// among them).
pub proof fn lemma_run_value_quotes_path(dst: Seq<char>)
    ensures
        run_command_text(dst) == "\""@ + dst + "\" --run"@,
        ({
            let b = run_value_bytes(dst);
            let units = Seq::new(
                b.len() / 2,
                |i: int| (b[2 * i] as int + 256 * b[2 * i + 1] as int) as u16,
            );
            &&& b.len() % 2 == 0
            &&& units.len() >= 1
            &&& units.last() == 0u16
            &&& utf16_decode(units.drop_last()) == "\""@ + dst + "\" --run"@
        }),
        ("\""@ + dst + "\" --run"@).len() == dst.len() + 8,
        ("\""@ + dst + "\" --run"@)[0] == '"',
        ("\""@ + dst + "\" --run"@).subrange(1, dst.len() as int + 1) == dst,
        ("\""@ + dst + "\" --run"@)[dst.len() as int + 1] == '"',
        ("\""@ + dst + "\" --run"@).subrange(dst.len() as int + 2, dst.len() as int + 8)
            == " --run"@,
{
    reveal_strlit("\"");
    reveal_strlit("\" --run");
    reveal_strlit(" --run");
    let t = "\""@ + dst + "\" --run"@;
    let u = utf16(t).push(0);
    let b = run_value_bytes(dst);
    lemma_le_bytes_recover(u);
    lemma_utf16_round_trip(t);
    let units = Seq::new(
        b.len() / 2,
        |i: int| (b[2 * i] as int + 256 * b[2 * i + 1] as int) as u16,
    );
    assert(b.len() / 2 == u.len());
    assert forall|i: int| 0 <= i < u.len() implies units[i] == u[i] by {
        assert(b[2 * i] as int + 256 * b[2 * i + 1] as int == u[i] as int);
    }
    assert(units =~= u);
    assert(units.drop_last() =~= utf16(t));
    assert(t.subrange(1, dst.len() as int + 1) =~= dst);
    assert(t.subrange(dst.len() as int + 2, dst.len() as int + 8) =~= " --run"@);
}

/// What an installation reports: the copy target is logged as
/// `installed to <dst>` once the program is in place; a failed copy stops the
/// installation with `copy failed: <reason>`; a failed registry call stops it
/// with the call's name and its error code in decimal, which reads back as
/// that code; a written `Run` entry is logged with the key and value it went
/// to.
pub proof fn lemma_install_messages(
    dst: Seq<char>,
    script_dir: Seq<char>,
    exe: Seq<char>,
    reason: Seq<char>,
    code: u32,
)
    requires
        code != 0,
    ensures
        install_action(dst, script_dir, exe, InstallStage::Copying, InstallEventView::Done)
            == InstallActionView::Log("installed to "@ + dst),
        install_action(dst, script_dir, exe, InstallStage::ComparingPaths, InstallEventView::Compared(true))
            == InstallActionView::Log("installed to "@ + dst),
        install_action(dst, script_dir, exe, InstallStage::Copying, InstallEventView::Failed(reason))
            == InstallActionView::Finish(Err("copy failed: "@ + reason)),
        install_action(dst, script_dir, exe, InstallStage::OpeningKey, InstallEventView::Code(code))
            == InstallActionView::Finish(
            Err("RegCreateKeyExW failed ("@ + decimal(code as nat) + ")"@),
        ),
        install_action(dst, script_dir, exe, InstallStage::SettingValue, InstallEventView::Code(code))
            == InstallActionView::Finish(
            Err("RegSetValueExW failed ("@ + decimal(code as nat) + ")"@),
        ),
        digits_value(decimal(code as nat)) == code,
        install_action(dst, script_dir, exe, InstallStage::SettingValue, InstallEventView::Code(0))
            == InstallActionView::Log(
            "registry Run entry written (HKEY_CURRENT_USER\\Software\\Microsoft\\Windows\\CurrentVersion\\Run\\pm-win-shutdown)"@,
        ),
{
    lemma_decimal_value(code as nat);
}

} // verus!
