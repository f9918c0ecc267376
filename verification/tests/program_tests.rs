use pm_win_shutdown::program::{
    command, install_report, run, run_shutdown, shutdown_level_report, usage_text, Command,
    MessageIcon, RunStep, SHUTDOWN_LEVEL,
};

#[test]
fn command_line() {
    assert_eq!(command(Some("--install")), Command::Install);
    assert_eq!(command(Some("--run")), Command::Run);
    assert_eq!(command(Some("--Run")), Command::Usage);
    assert_eq!(command(Some("")), Command::Usage);
    assert_eq!(command(None), Command::Usage);
}

#[test]
fn install_reports() {
    let r = install_report(&Ok(()));
    assert_eq!(r.log, "install completed");
    assert_eq!(r.text, "pm-win-shutdown 安装完成.");
    assert_eq!(r.icon, MessageIcon::Information);
    let r = install_report(&Err("copy failed: x".to_string()));
    assert_eq!(r.log, "install failed: copy failed: x");
    assert_eq!(r.text, "安装失败:\ncopy failed: x");
    assert_eq!(r.icon, MessageIcon::Error);
}

#[test]
fn usage() {
    assert_eq!(
        usage_text(),
        "用法:\n  pm-win-shutdown.exe --install   安装\n  pm-win-shutdown.exe --run       运行"
    );
}

#[test]
fn shutdown_level() {
    assert_eq!(SHUTDOWN_LEVEL, 0x3FF);
    assert_eq!(shutdown_level_report(&Ok(())), "shutdown priority set to 0x3FF (highest, shut down first)");
    assert_eq!(
        shutdown_level_report(&Err("Error { code: HRESULT(0x80070005) }".to_string())),
        "SetProcessShutdownParameters failed: Error { code: HRESULT(0x80070005) }"
    );
}

#[test]
fn normal_run_steps() {
    let steps = run();
    assert_eq!(steps.len(), 5);
    assert!(matches!(&steps[0], RunStep::Log(s) if s == "pm-win-shutdown started (--run)"));
    assert!(matches!(&steps[1], RunStep::RaiseShutdownLevel));
    assert!(matches!(&steps[2], RunStep::RunScript(s) if s == "login.bat"));
    assert!(matches!(&steps[3], RunStep::RunWindow));
    assert!(matches!(&steps[4], RunStep::Log(s) if s == "pm-win-shutdown exiting"));
}

#[test]
fn shutdown_handler_lines() {
    let lines = run_shutdown();
    assert_eq!(
        lines,
        vec![
            "system message: WM_QUERYENDSESSION (shutdown/restart/logoff) (run_shutdown)".to_string(),
            "run_shutdown exit 0".to_string()
        ]
    );
}
