use pm_win_shutdown::window::{
    class_registered, create_window_failed_text, keep_pumping, notice_message,
    register_class_failed_text, session_script_name, window_origin, window_reply, Notice,
    SessionScript, WindowEffect, HTCAPTION,
    PBT_APMRESUMEAUTOMATIC, PBT_APMSUSPEND, WM_CLOSE, WM_DESTROY, WM_ENDSESSION, WM_NCHITTEST,
    WM_PAINT, WM_POWERBROADCAST, WM_QUERYENDSESSION,
};

fn reply(msg: u32, wparam: usize) -> (Vec<WindowEffect>, Option<isize>) {
    let r = window_reply(msg, wparam);
    (r.effects, r.result)
}

#[test]
fn message_numbers_are_the_win32_ones() {
    assert_eq!(WM_DESTROY, 0x0002);
    assert_eq!(WM_PAINT, 0x000F);
    assert_eq!(WM_CLOSE, 0x0010);
    assert_eq!(WM_QUERYENDSESSION, 0x0011);
    assert_eq!(WM_ENDSESSION, 0x0016);
    assert_eq!(WM_NCHITTEST, 0x0084);
    assert_eq!(WM_POWERBROADCAST, 0x0218);
    assert_eq!(PBT_APMSUSPEND, 4);
    assert_eq!(PBT_APMRESUMEAUTOMATIC, 18);
    assert_eq!(HTCAPTION, 2);
}

#[test]
fn query_end_session_runs_logout_then_starts_the_handler_and_blocks() {
    let expected = (
        vec![WindowEffect::RunScript(SessionScript::Logout), WindowEffect::StartShutdownHandler],
        Some(0),
    );
    assert_eq!(reply(WM_QUERYENDSESSION, 0), expected);
    assert_eq!(reply(WM_QUERYENDSESSION, 0x8000_0000), expected);
}

#[test]
fn end_session_quits_only_when_the_session_ends() {
    assert_eq!(
        reply(WM_ENDSESSION, 1),
        (vec![WindowEffect::Log(Notice::SessionEnding), WindowEffect::PostQuit], Some(0))
    );
    assert_eq!(reply(WM_ENDSESSION, 0), (vec![], Some(0)));
}

#[test]
fn power_events() {
    assert_eq!(
        reply(WM_POWERBROADCAST, 4),
        (
            vec![WindowEffect::Log(Notice::EnteringSleep), WindowEffect::RunScript(SessionScript::SleepBefore)],
            Some(1)
        )
    );
    assert_eq!(
        reply(WM_POWERBROADCAST, 18),
        (
            vec![WindowEffect::Log(Notice::ResumedFromSleep), WindowEffect::RunScript(SessionScript::SleepAfter)],
            Some(1)
        )
    );
    assert_eq!(reply(WM_POWERBROADCAST, 7), (vec![], Some(1)));
    // Only the low 32 bits of wparam name the event.
    assert_eq!(reply(WM_POWERBROADCAST, (1usize << 32) | 18), reply(WM_POWERBROADCAST, 18));
}

#[test]
fn drag_paint_close_destroy_and_others() {
    assert_eq!(reply(WM_NCHITTEST, 0), (vec![], Some(2)));
    assert_eq!(reply(WM_PAINT, 0), (vec![WindowEffect::Paint], Some(0)));
    assert_eq!(reply(WM_CLOSE, 0), (vec![], Some(0)));
    assert_eq!(reply(WM_DESTROY, 0), (vec![WindowEffect::PostQuit], Some(0)));
    assert_eq!(reply(0x0200, 5), (vec![], None));
}

#[test]
fn session_script_names() {
    assert_eq!(session_script_name(SessionScript::Logout), "logout.bat");
    assert_eq!(session_script_name(SessionScript::SleepBefore), "sleep_before.bat");
    assert_eq!(session_script_name(SessionScript::SleepAfter), "sleep_after.bat");
}

#[test]
fn notice_texts() {
    assert_eq!(notice_message(Notice::SessionEnding), "system message: WM_ENDSESSION (session is ending)");
    assert_eq!(notice_message(Notice::EnteringSleep), "system message: PBT_APMSUSPEND (entering sleep)");
    assert_eq!(
        notice_message(Notice::ResumedFromSleep),
        "system message: PBT_APMRESUMEAUTOMATIC (resume from sleep)"
    );
}

#[test]
fn window_position_and_loop() {
    assert_eq!(window_origin(1920), (1632, 32));
    assert_eq!(window_origin(0), (-288, 32));
    assert_eq!(window_origin(i32::MIN), (i32::MIN.wrapping_sub(288), 32));
    assert!(class_registered(49_000));
    assert!(!class_registered(0));
    assert_eq!(register_class_failed_text(), "RegisterClassW failed");
    assert_eq!(create_window_failed_text("Error { code: HRESULT(0x1) }"), "CreateWindowExW failed: Error { code: HRESULT(0x1) }");
    assert!(keep_pumping(1));
    assert!(!keep_pumping(0));
    assert!(!keep_pumping(-1));
}
