//! How the program's small window answers the messages of the
//! system. The window exists so that Windows asks the program before a
//! shutdown, a restart or a logoff; its answers are decided here and carried
//! out by the window procedure.
use vstd::prelude::*;

verus! {

/// `WM_DESTROY`: the window is being destroyed.
pub const WM_DESTROY: u32 = 0x0002;

/// `WM_PAINT`: the window must be drawn.
pub const WM_PAINT: u32 = 0x000F;

/// `WM_CLOSE`: a request to close the window (Alt+F4, the system menu).
pub const WM_CLOSE: u32 = 0x0010;

/// `WM_QUERYENDSESSION`: the session is about to end (shutdown, restart, logoff).
pub const WM_QUERYENDSESSION: u32 = 0x0011;

/// `WM_ENDSESSION`: whether the session really ends (in `wparam`).
pub const WM_ENDSESSION: u32 = 0x0016;

/// `WM_NCHITTEST`: which part of the window is under the mouse.
pub const WM_NCHITTEST: u32 = 0x0084;

/// `WM_POWERBROADCAST`: a power event, named in `wparam`.
pub const WM_POWERBROADCAST: u32 = 0x0218;

/// `PBT_APMSUSPEND`: the system is about to sleep.
pub const PBT_APMSUSPEND: u32 = 0x0004;

/// `PBT_APMRESUMEAUTOMATIC`: the system woke up from sleep.
pub const PBT_APMRESUMEAUTOMATIC: u32 = 0x0012;

/// `HTCAPTION`: the mouse is on the title bar, so a drag moves the window.
pub const HTCAPTION: isize = 2;

/// The side of the square window, in pixels.
pub const WINDOW_SIZE: i32 = 32;

/// What the log records about a message.
#[derive(Clone, Copy, Debug, PartialEq, Eq, Structural)]
pub enum Notice {
    /// `WM_ENDSESSION` with a non-zero `wparam`.
    SessionEnding,
    /// `PBT_APMSUSPEND`.
    EnteringSleep,
    /// `PBT_APMRESUMEAUTOMATIC`.
    ResumedFromSleep,
}

/// The user's scripts that run on session and power events.
#[derive(Clone, Copy, Debug, PartialEq, Eq, Structural)]
pub enum SessionScript {
    /// `logout.bat`: before a logoff, a shutdown or a restart.
    Logout,
    /// `sleep_before.bat`: before the system sleeps.
    SleepBefore,
    /// `sleep_after.bat`: after the system woke up.
    SleepAfter,
}

/// One thing the window procedure does for a message.
#[derive(Clone, Copy, Debug, PartialEq, Eq, Structural)]
pub enum WindowEffect {
    /// Write this notice to the log.
    Log(Notice),
    /// Run this script to its end (as `run_script` does) before going on.
    RunScript(SessionScript),
    /// Start the shutdown handler on a thread of its own.
    StartShutdownHandler,
    /// Post the quit message, which ends the message loop.
    PostQuit,
    /// Paint the window.
    Paint,
}

/// Everything the window procedure does for one message: the effects, in
/// order; then it returns `result`, or hands the message to `DefWindowProcW`
/// when that is `None`.
pub struct WindowReply {
    pub effects: Vec<WindowEffect>,
    pub result: Option<isize>,
}

/// The effects of the reply to `msg` with the parameter `wparam`, in order.
pub open spec fn reply_effects(msg: u32, wparam: usize) -> Seq<WindowEffect> {
    if msg == WM_QUERYENDSESSION {
        // Run logout.bat to its end, then start the shutdown handler.
        seq![WindowEffect::RunScript(SessionScript::Logout), WindowEffect::StartShutdownHandler]
    } else if msg == WM_ENDSESSION {
        if wparam != 0 {
            seq![WindowEffect::Log(Notice::SessionEnding), WindowEffect::PostQuit]
        } else {
            seq![]
        }
    } else if msg == WM_POWERBROADCAST {
        let event = wparam as u32;
        if event == PBT_APMSUSPEND {
            seq![
                WindowEffect::Log(Notice::EnteringSleep),
                WindowEffect::RunScript(SessionScript::SleepBefore),
            ]
        } else if event == PBT_APMRESUMEAUTOMATIC {
            seq![
                WindowEffect::Log(Notice::ResumedFromSleep),
                WindowEffect::RunScript(SessionScript::SleepAfter),
            ]
        } else {
            seq![]
        }
    } else if msg == WM_PAINT {
        seq![WindowEffect::Paint]
    } else if msg == WM_DESTROY {
        seq![WindowEffect::PostQuit]
    } else {
        seq![]
    }
}

/// What the window procedure returns for `msg`; `None` hands the message to
/// `DefWindowProcW`.
pub open spec fn reply_result(msg: u32) -> Option<isize> {
    if msg == WM_QUERYENDSESSION || msg == WM_ENDSESSION || msg == WM_PAINT || msg == WM_CLOSE
        || msg == WM_DESTROY {
        // 0 to WM_QUERYENDSESSION holds up the end of the session.
        Some(0)
    } else if msg == WM_POWERBROADCAST {
        Some(1)
    } else if msg == WM_NCHITTEST {
        Some(HTCAPTION)
    } else {
        None
    }
}

/// Decides how the window answers `msg` with the parameter `wparam`.
pub fn window_reply(msg: u32, wparam: usize) -> (r: WindowReply)
    ensures
        r.effects@ == reply_effects(msg, wparam),
        r.result == reply_result(msg),
        r.effects@.contains(WindowEffect::PostQuit) <==> (msg == WM_DESTROY || (msg
            == WM_ENDSESSION && wparam != 0)),
        msg == WM_POWERBROADCAST && wparam as u32 != PBT_APMSUSPEND && wparam as u32
            != PBT_APMRESUMEAUTOMATIC ==> r.effects@.len() == 0 && r.result == Some(1isize),
{
    let mut effects: Vec<WindowEffect> = Vec::new();
    let result: Option<isize>;
    if msg == WM_QUERYENDSESSION {
        effects.push(WindowEffect::RunScript(SessionScript::Logout));
        effects.push(WindowEffect::StartShutdownHandler);
        result = Some(0);
    } else if msg == WM_ENDSESSION {
        if wparam != 0 {
            effects.push(WindowEffect::Log(Notice::SessionEnding));
            effects.push(WindowEffect::PostQuit);
        }
        result = Some(0);
    } else if msg == WM_POWERBROADCAST {
        let event = wparam as u32;
        if event == PBT_APMSUSPEND {
            effects.push(WindowEffect::Log(Notice::EnteringSleep));
            effects.push(WindowEffect::RunScript(SessionScript::SleepBefore));
        } else if event == PBT_APMRESUMEAUTOMATIC {
            effects.push(WindowEffect::Log(Notice::ResumedFromSleep));
            effects.push(WindowEffect::RunScript(SessionScript::SleepAfter));
        }
        result = Some(1);
    } else if msg == WM_NCHITTEST {
        result = Some(HTCAPTION);
    } else if msg == WM_PAINT {
        effects.push(WindowEffect::Paint);
        result = Some(0);
    } else if msg == WM_CLOSE {
        result = Some(0);
    } else if msg == WM_DESTROY {
        effects.push(WindowEffect::PostQuit);
        result = Some(0);
    } else {
        result = None;
    }
    proof {
        assert(effects@ =~= reply_effects(msg, wparam));
        lemma_quit_only_on_end(msg, wparam);
    }
    WindowReply { effects, result }
}

/// The log line of a notice.
pub open spec fn notice_text(n: Notice) -> Seq<char> {
    match n {
        Notice::SessionEnding => "system message: WM_ENDSESSION (session is ending)"@,
        Notice::EnteringSleep => "system message: PBT_APMSUSPEND (entering sleep)"@,
        Notice::ResumedFromSleep => "system message: PBT_APMRESUMEAUTOMATIC (resume from sleep)"@,
    }
}

/// The log line of a notice.
pub fn notice_message(n: Notice) -> (r: &'static str)
    ensures
        r@ == notice_text(n),
        n == Notice::SessionEnding ==> r@ == "system message: WM_ENDSESSION (session is ending)"@,
        n == Notice::EnteringSleep ==> r@ == "system message: PBT_APMSUSPEND (entering sleep)"@,
        n == Notice::ResumedFromSleep ==> r@
            == "system message: PBT_APMRESUMEAUTOMATIC (resume from sleep)"@,
{
    match n {
        Notice::SessionEnding => "system message: WM_ENDSESSION (session is ending)",
        Notice::EnteringSleep => "system message: PBT_APMSUSPEND (entering sleep)",
        Notice::ResumedFromSleep => "system message: PBT_APMRESUMEAUTOMATIC (resume from sleep)",
    }
}

/// The file name of a session script.
pub open spec fn session_script_text(s: SessionScript) -> Seq<char> {
    match s {
        SessionScript::Logout => "logout.bat"@,
        SessionScript::SleepBefore => "sleep_before.bat"@,
        SessionScript::SleepAfter => "sleep_after.bat"@,
    }
}

/// The file name of a session script, in the script directory.
pub fn session_script_name(s: SessionScript) -> (r: &'static str)
    ensures
        r@ == session_script_text(s),
        s == SessionScript::Logout ==> r@ == "logout.bat"@,
        s == SessionScript::SleepBefore ==> r@ == "sleep_before.bat"@,
        s == SessionScript::SleepAfter ==> r@ == "sleep_after.bat"@,
{
    match s {
        SessionScript::Logout => "logout.bat",
        SessionScript::SleepBefore => "sleep_before.bat",
        SessionScript::SleepAfter => "sleep_after.bat",
    }
}

/// The left edge of the window: `WINDOW_SIZE + 256` pixels left of the right
/// edge of a screen `screen_width` pixels wide, as a release build computes it
/// (wrapping around for widths below `i32::MIN + 288`).
pub open spec fn origin_x(screen_width: i32) -> int {
    let x = screen_width - WINDOW_SIZE - 256;
    if x < i32::MIN {
        x + 0x1_0000_0000
    } else {
        x
    }
}

/// Where the window goes: see `origin_x`; 32 pixels below the top.
pub fn window_origin(screen_width: i32) -> (r: (i32, i32))
    ensures
        r.0 == origin_x(screen_width),
        r.1 == 32,
{
    (screen_width.wrapping_sub(WINDOW_SIZE + 256), 32)
}

/// Whether the window class was registered: `RegisterClassW` returns a
/// non-zero atom on success.
pub fn class_registered(atom: u16) -> (r: bool)
    ensures
        r == (atom != 0),
{
    atom != 0
}

/// The log line when the window class could not be registered; the window
/// is then not shown.
pub fn register_class_failed_text() -> (r: &'static str)
    ensures
        r@ == "RegisterClassW failed"@,
{
    "RegisterClassW failed"
}

/// `CreateWindowExW failed: <reason>`: the log line when the window could not
/// be created; it is then not shown.
pub fn create_window_failed_text(reason: &str) -> (r: String)
    ensures
        r@ == "CreateWindowExW failed: "@ + reason@,
{
    let mut s = String::from_str("CreateWindowExW failed: ");
    s.append(reason);
    s
}

/// Whether the message loop goes on after `GetMessageW` returned `got`: only
/// for a message (a positive value), not for `WM_QUIT` (0) or an error (-1).
pub fn keep_pumping(got: i32) -> (r: bool)
    ensures
        r == (got > 0),
{
    got > 0
}

/// The window cannot be closed: whatever `wparam`, `WM_CLOSE` is answered
/// with 0 and nothing else happens.
pub proof fn lemma_close_is_ignored(wparam: usize)
    ensures
        reply_effects(WM_CLOSE, wparam) == Seq::<WindowEffect>::empty(),
        reply_result(WM_CLOSE) == Some(0isize),
{
}

/// The whole window counts as its title bar, so it can be dragged anywhere.
pub proof fn lemma_whole_window_is_caption(wparam: usize)
    ensures
        reply_effects(WM_NCHITTEST, wparam) == Seq::<WindowEffect>::empty(),
        reply_result(WM_NCHITTEST) == Some(HTCAPTION),
{
}

/// When the session is about to end (logoff, shutdown, restart), `logout.bat`
/// runs to its end before anything else, the shutdown handler starts only
/// after it, and the answer is 0, which holds the end of the session up;
/// whatever `wparam` holds.
pub proof fn lemma_logout_runs_first(wparam: usize)
    ensures
        reply_effects(WM_QUERYENDSESSION, wparam)[0] == WindowEffect::RunScript(
            SessionScript::Logout,
        ),
        reply_effects(WM_QUERYENDSESSION, wparam).last() == WindowEffect::StartShutdownHandler,
        reply_result(WM_QUERYENDSESSION) == Some(0isize),
        !reply_effects(WM_QUERYENDSESSION, wparam).contains(WindowEffect::PostQuit),
{
}

/// Before sleep `sleep_before.bat` runs, after waking up `sleep_after.bat`;
/// each after the notice is logged, and the power event is acknowledged (1).
pub proof fn lemma_sleep_scripts(wparam: usize)
    ensures
        wparam as u32 == PBT_APMSUSPEND ==> reply_effects(WM_POWERBROADCAST, wparam) == seq![
            WindowEffect::Log(Notice::EnteringSleep),
            WindowEffect::RunScript(SessionScript::SleepBefore),
        ],
        wparam as u32 == PBT_APMRESUMEAUTOMATIC ==> reply_effects(WM_POWERBROADCAST, wparam)
            == seq![
            WindowEffect::Log(Notice::ResumedFromSleep),
            WindowEffect::RunScript(SessionScript::SleepAfter),
        ],
        reply_result(WM_POWERBROADCAST) == Some(1isize),
{
}

/// Each script runs for exactly one kind of message, and the shutdown
/// handler starts only for `WM_QUERYENDSESSION`.
pub proof fn lemma_side_effects_are_targeted(msg: u32, wparam: usize)
    ensures
        reply_effects(msg, wparam).contains(WindowEffect::RunScript(SessionScript::Logout))
            <==> msg == WM_QUERYENDSESSION,
        reply_effects(msg, wparam).contains(WindowEffect::RunScript(SessionScript::SleepBefore))
            <==> (msg == WM_POWERBROADCAST && wparam as u32 == PBT_APMSUSPEND),
        reply_effects(msg, wparam).contains(WindowEffect::RunScript(SessionScript::SleepAfter))
            <==> (msg == WM_POWERBROADCAST && wparam as u32 == PBT_APMRESUMEAUTOMATIC),
        reply_effects(msg, wparam).contains(WindowEffect::StartShutdownHandler) <==> msg
            == WM_QUERYENDSESSION,
        reply_result(msg) is None <==> !(msg == WM_QUERYENDSESSION || msg == WM_ENDSESSION || msg
            == WM_POWERBROADCAST || msg == WM_NCHITTEST || msg == WM_PAINT || msg == WM_CLOSE
            || msg == WM_DESTROY),
{
    let e = reply_effects(msg, wparam);
    if msg == WM_QUERYENDSESSION {
        assert(e[0] == WindowEffect::RunScript(SessionScript::Logout));
        assert(e[1] == WindowEffect::StartShutdownHandler);
    } else if msg == WM_POWERBROADCAST && wparam as u32 == PBT_APMSUSPEND {
        assert(e[1] == WindowEffect::RunScript(SessionScript::SleepBefore));
    } else if msg == WM_POWERBROADCAST && wparam as u32 == PBT_APMRESUMEAUTOMATIC {
        assert(e[1] == WindowEffect::RunScript(SessionScript::SleepAfter));
    }
}

/// The message loop ends, and the program with it, only when the window is
/// destroyed or the session really ends (`WM_ENDSESSION` with a non-zero
/// `wparam`): the quit message is posted then, and for no other message or
/// parameter, so the program stays to run `logout.bat` at the next shutdown.
pub proof fn lemma_quit_only_on_end(msg: u32, wparam: usize)
    ensures
        reply_effects(msg, wparam).contains(WindowEffect::PostQuit) <==> (msg == WM_DESTROY || (
        msg == WM_ENDSESSION && wparam != 0)),
{
    let e = reply_effects(msg, wparam);
    if msg == WM_DESTROY {
        assert(e[0] == WindowEffect::PostQuit);
    } else if msg == WM_ENDSESSION && wparam != 0 {
        assert(e[1] == WindowEffect::PostQuit);
    }
}

/// A power event other than going to sleep or waking up from it (the switch
/// between mains and battery, a low battery, a change of power settings) is
/// only acknowledged: nothing is logged, no script runs, the program goes
/// on, and the answer is 1.
pub proof fn lemma_other_power_events_are_acknowledged(wparam: usize)
    requires
        wparam as u32 != PBT_APMSUSPEND,
        wparam as u32 != PBT_APMRESUMEAUTOMATIC,
    ensures
        reply_effects(WM_POWERBROADCAST, wparam) == Seq::<WindowEffect>::empty(),
        reply_result(WM_POWERBROADCAST) == Some(1isize),
{
}

/// Each notice is logged for exactly one kind of message, and the window is
/// painted only when asked to; the end of the session, a paint and the
/// destruction of the window are answered with 0.
pub proof fn lemma_notices_are_targeted(msg: u32, wparam: usize)
    ensures
        reply_effects(msg, wparam).contains(WindowEffect::Log(Notice::SessionEnding)) <==> (msg
            == WM_ENDSESSION && wparam != 0),
        reply_effects(msg, wparam).contains(WindowEffect::Log(Notice::EnteringSleep)) <==> (msg
            == WM_POWERBROADCAST && wparam as u32 == PBT_APMSUSPEND),
        reply_effects(msg, wparam).contains(WindowEffect::Log(Notice::ResumedFromSleep)) <==> (
        msg == WM_POWERBROADCAST && wparam as u32 == PBT_APMRESUMEAUTOMATIC),
        reply_effects(msg, wparam).contains(WindowEffect::Paint) <==> msg == WM_PAINT,
        reply_result(WM_ENDSESSION) == Some(0isize),
        reply_result(WM_PAINT) == Some(0isize),
        reply_result(WM_DESTROY) == Some(0isize),
{
    let e = reply_effects(msg, wparam);
    if msg == WM_ENDSESSION && wparam != 0 {
        assert(e[0] == WindowEffect::Log(Notice::SessionEnding));
    } else if msg == WM_POWERBROADCAST && wparam as u32 == PBT_APMSUSPEND {
        assert(e[0] == WindowEffect::Log(Notice::EnteringSleep));
    } else if msg == WM_POWERBROADCAST && wparam as u32 == PBT_APMRESUMEAUTOMATIC {
        assert(e[0] == WindowEffect::Log(Notice::ResumedFromSleep));
    } else if msg == WM_PAINT {
        assert(e[0] == WindowEffect::Paint);
    }
}

} // verus!
