use pm_win_shutdown::install::{install_self, run_value, same_path, InstallAction, InstallEvent, InstallStage};
use pm_win_shutdown::script::{run_script, ScriptAction, ScriptEvent, ScriptStage};

fn wide_nul(s: &str) -> Vec<u16> {
    s.encode_utf16().chain(std::iter::once(0)).collect()
}

fn le_bytes(units: &[u16]) -> Vec<u8> {
    units.iter().flat_map(|u| u.to_le_bytes()).collect()
}

fn expect_log(a: ScriptAction) -> String {
    match a {
        ScriptAction::Log(s) => s,
        _ => panic!("expected a log line"),
    }
}

#[test]
fn script_found_and_run() {
    let mut r = run_script("C:\\b", "login.bat");
    assert_eq!(r.stage(), ScriptStage::Start);
    match r.step(ScriptEvent::Begin) {
        ScriptAction::CheckFile(p) => assert_eq!(p, "C:\\b\\script\\login.bat"),
        _ => panic!("expected a file check"),
    }
    assert_eq!(expect_log(r.step(ScriptEvent::FileChecked(true))), "script start: login.bat");
    match r.step(ScriptEvent::Logged) {
        ScriptAction::Launch(cmd) => assert_eq!(cmd, wide_nul("cmd.exe /C \"C:\\b\\script\\login.bat\"")),
        _ => panic!("expected a launch"),
    }
    assert_eq!(r.stage(), ScriptStage::Running);
    assert_eq!(expect_log(r.step(ScriptEvent::Ran(Ok(3)))), "script done: login.bat (exit code 3)");
    assert!(matches!(r.step(ScriptEvent::Logged), ScriptAction::Finish));
    assert_eq!(r.stage(), ScriptStage::Done);
}

#[test]
fn script_exit_code_zero_and_large() {
    let mut r = run_script("C:\\b", "sleep_after.bat");
    r.step(ScriptEvent::Begin);
    r.step(ScriptEvent::FileChecked(true));
    r.step(ScriptEvent::Logged);
    assert_eq!(expect_log(r.step(ScriptEvent::Ran(Ok(0)))), "script done: sleep_after.bat (exit code 0)");
    let mut r = run_script("C:\\b", "x.bat");
    r.step(ScriptEvent::Begin);
    r.step(ScriptEvent::FileChecked(true));
    r.step(ScriptEvent::Logged);
    assert_eq!(
        expect_log(r.step(ScriptEvent::Ran(Ok(u32::MAX)))),
        "script done: x.bat (exit code 4294967295)"
    );
}

#[test]
fn missing_script_is_skipped_and_logged() {
    let mut r = run_script("C:\\b", "login.bat");
    r.step(ScriptEvent::Begin);
    assert_eq!(expect_log(r.step(ScriptEvent::FileChecked(false))), "script skipped (not found): login.bat");
    assert_eq!(r.stage(), ScriptStage::Reported);
    assert!(matches!(r.step(ScriptEvent::Logged), ScriptAction::Finish));
}

#[test]
fn script_that_fails_to_start() {
    let mut r = run_script("C:\\b", "login.bat");
    r.step(ScriptEvent::Begin);
    r.step(ScriptEvent::FileChecked(true));
    r.step(ScriptEvent::Logged);
    assert_eq!(
        expect_log(r.step(ScriptEvent::Ran(Err("Error { code: HRESULT(0x80070002) }".to_string())))),
        "script failed to start: login.bat (Error { code: HRESULT(0x80070002) })"
    );
}

#[test]
fn script_with_a_sub_path_or_no_name() {
    let mut r = run_script("C:\\b", "sub\\x.bat");
    match r.step(ScriptEvent::Begin) {
        ScriptAction::CheckFile(p) => assert_eq!(p, "C:\\b\\script\\sub\\x.bat"),
        _ => panic!("expected a file check"),
    }
    let mut r = run_script("C:\\b", "");
    match r.step(ScriptEvent::Begin) {
        ScriptAction::CheckFile(p) => assert_eq!(p, format!("C:\\b\\script{}", '\\')),
        _ => panic!("expected a file check"),
    }
    assert_eq!(expect_log(r.step(ScriptEvent::FileChecked(false))), "script skipped (not found): ");
}

#[test]
fn script_event_out_of_order_ends_the_run() {
    let mut r = run_script("C:\\b", "login.bat");
    assert!(matches!(r.step(ScriptEvent::Logged), ScriptAction::Finish));
    assert_eq!(r.stage(), ScriptStage::Done);
}

#[test]
fn run_value_is_the_quoted_path_with_run() {
    let dst = "C:\\Users\\me\\AppData\\Local\\pm-win-shutdown\\pm-win-shutdown.exe";
    let expected = le_bytes(&wide_nul(&format!("\"{}\" --run", dst)));
    assert_eq!(run_value(dst), expected);
}

fn compare(m: &mut pm_win_shutdown::install::Install, located: &str) -> bool {
    match m.step(InstallEvent::Located(located.to_string())) {
        InstallAction::ComparePaths { a, b } => {
            assert_eq!(a, located);
            same_path(&a, &b)
        }
        _ => panic!("expected a comparison"),
    }
}

#[test]
fn install_copies_and_registers() {
    let base = "C:\\b";
    let mut m = install_self(base);
    match m.step(InstallEvent::Begin) {
        InstallAction::CreateDir(d) => assert_eq!(d, "C:\\b\\script"),
        _ => panic!("expected a directory"),
    }
    assert!(matches!(m.step(InstallEvent::Done), InstallAction::LocateExe));
    match m.step(InstallEvent::Located("D:\\dl\\pm-win-shutdown.exe".to_string())) {
        InstallAction::ComparePaths { a, b } => {
            assert_eq!(a, "D:\\dl\\pm-win-shutdown.exe");
            assert_eq!(b, "C:\\b\\pm-win-shutdown.exe");
        }
        _ => panic!("expected a comparison"),
    }
    assert_eq!(m.stage(), InstallStage::ComparingPaths);
    match m.step(InstallEvent::Compared(false)) {
        InstallAction::Copy { from, to } => {
            assert_eq!(from, "D:\\dl\\pm-win-shutdown.exe");
            assert_eq!(to, "C:\\b\\pm-win-shutdown.exe");
        }
        _ => panic!("expected a copy"),
    }
    match m.step(InstallEvent::Done) {
        InstallAction::Log(s) => assert_eq!(s, "installed to C:\\b\\pm-win-shutdown.exe"),
        _ => panic!("expected a log line"),
    }
    assert!(matches!(m.step(InstallEvent::Done), InstallAction::OpenRunKey));
    match m.step(InstallEvent::Code(0)) {
        InstallAction::SetRunValue(bytes) => {
            assert_eq!(bytes, le_bytes(&wide_nul("\"C:\\b\\pm-win-shutdown.exe\" --run")))
        }
        _ => panic!("expected the registry value"),
    }
    match m.step(InstallEvent::Code(0)) {
        InstallAction::Log(s) => assert_eq!(
            s,
            "registry Run entry written (HKEY_CURRENT_USER\\Software\\Microsoft\\Windows\\CurrentVersion\\Run\\pm-win-shutdown)"
        ),
        _ => panic!("expected a log line"),
    }
    match m.step(InstallEvent::Done) {
        InstallAction::Finish(Ok(())) => {}
        _ => panic!("expected success"),
    }
    assert_eq!(m.stage(), InstallStage::Done);
}

#[test]
fn install_from_the_installed_copy_does_not_copy() {
    let mut m = install_self("C:\\b");
    m.step(InstallEvent::Begin);
    m.step(InstallEvent::Done);
    let same = compare(&mut m, "C:\\b\\pm-win-shutdown.exe");
    assert!(same);
    match m.step(InstallEvent::Compared(same)) {
        InstallAction::Log(s) => assert_eq!(s, "installed to C:\\b\\pm-win-shutdown.exe"),
        _ => panic!("expected no copy"),
    }
    assert_eq!(m.stage(), InstallStage::LoggedInstall);
}

#[test]
fn same_path_is_recognised_beyond_the_text() {
    // `/tmp//b` and `/tmp/b` are different texts for one path.
    let mut m = install_self("/tmp/b");
    m.step(InstallEvent::Begin);
    m.step(InstallEvent::Done);
    assert!(compare(&mut m, "/tmp//b\\pm-win-shutdown.exe"));
    assert!(!same_path("/tmp/b", "/tmp/c"));
}

#[test]
fn same_path_on_portable_paths() {
    assert!(same_path("a/b", "a//b/"));
    assert!(same_path("/x/y", "/x/y"));
    assert!(same_path("", ""));
    assert!(!same_path("a/b", "a/c"));
    assert!(!same_path("/a", "a"));
    assert!(!same_path("a/b", "a/b/c"));
    assert!(!same_path("", "/"));
}

#[test]
fn installing_twice_hands_out_the_same_targets() {
    let run = || {
        let mut m = install_self("C:\\b");
        let mut out = Vec::new();
        for ev in [
            InstallEvent::Begin,
            InstallEvent::Done,
            InstallEvent::Located("D:\\x.exe".to_string()),
            InstallEvent::Compared(false),
            InstallEvent::Done,
            InstallEvent::Done,
            InstallEvent::Code(0),
            InstallEvent::Code(0),
            InstallEvent::Done,
        ] {
            out.push(match m.step(ev) {
                InstallAction::CreateDir(d) => format!("dir {}", d),
                InstallAction::LocateExe => "locate".to_string(),
                InstallAction::ComparePaths { a, b } => format!("cmp {} {}", a, b),
                InstallAction::Copy { from, to } => format!("copy {} {}", from, to),
                InstallAction::Log(s) => format!("log {}", s),
                InstallAction::OpenRunKey => "key".to_string(),
                InstallAction::SetRunValue(b) => format!("value {:?}", b),
                InstallAction::Finish(r) => format!("finish {:?}", r),
            });
        }
        out
    };
    assert_eq!(run(), run());
}

fn finish_error(a: InstallAction) -> String {
    match a {
        InstallAction::Finish(Err(e)) => e,
        _ => panic!("expected a failure"),
    }
}

#[test]
fn install_failures() {
    let mut m = install_self("C:\\b");
    m.step(InstallEvent::Begin);
    assert_eq!(finish_error(m.step(InstallEvent::Failed("access denied".to_string()))), "access denied");

    let mut m = install_self("C:\\b");
    m.step(InstallEvent::Begin);
    m.step(InstallEvent::Done);
    assert_eq!(finish_error(m.step(InstallEvent::Failed("no exe".to_string()))), "no exe");

    let mut m = install_self("C:\\b");
    m.step(InstallEvent::Begin);
    m.step(InstallEvent::Done);
    m.step(InstallEvent::Located("D:\\x.exe".to_string()));
    m.step(InstallEvent::Compared(false));
    assert_eq!(finish_error(m.step(InstallEvent::Failed("disk full".to_string()))), "copy failed: disk full");
    assert_eq!(m.stage(), InstallStage::Done);
}

fn to_registry(m: &mut pm_win_shutdown::install::Install) {
    m.step(InstallEvent::Begin);
    m.step(InstallEvent::Done);
    m.step(InstallEvent::Located("C:\\b\\pm-win-shutdown.exe".to_string()));
    m.step(InstallEvent::Compared(true));
    m.step(InstallEvent::Done);
}

#[test]
fn install_registry_failures() {
    let mut m = install_self("C:\\b");
    to_registry(&mut m);
    assert_eq!(finish_error(m.step(InstallEvent::Code(5))), "RegCreateKeyExW failed (5)");

    let mut m = install_self("C:\\b");
    to_registry(&mut m);
    m.step(InstallEvent::Code(0));
    assert_eq!(finish_error(m.step(InstallEvent::Code(1234))), "RegSetValueExW failed (1234)");
}

#[test]
fn install_event_out_of_order() {
    let mut m = install_self("C:\\b");
    assert_eq!(finish_error(m.step(InstallEvent::Done)), "installation step out of order");
    assert_eq!(m.stage(), InstallStage::Done);
}
