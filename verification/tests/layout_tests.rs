use pm_win_shutdown::clock::DateTimeFields;
use pm_win_shutdown::paths::{
    base_dir, installed_exe, log_dir, log_file, path_join, script_dir,
    script_path,
};

#[test]
fn base_dir_prefers_local_app_data() {
    assert_eq!(
        base_dir(Some("C:\\Users\\me\\AppData\\Local"), Some("D:\\tools")),
        "C:\\Users\\me\\AppData\\Local\\pm-win-shutdown"
    );
}

#[test]
fn base_dir_falls_back_to_the_program_directory_then_dot() {
    assert_eq!(base_dir(None, Some("D:\\tools")), "D:\\tools\\pm-win-shutdown");
    assert_eq!(base_dir(None, None), ".\\pm-win-shutdown");
}

#[test]
fn base_dir_of_an_empty_variable() {
    assert_eq!(base_dir(Some(""), Some("D:\\tools")), "pm-win-shutdown");
}

#[test]
fn joining_follows_windows_rules() {
    assert_eq!(path_join("C:\\a", "b"), "C:\\a\\b");
    assert_eq!(path_join("C:\\a\\", "b"), "C:\\a\\b");
    assert_eq!(path_join("C:\\a/", "b"), "C:\\a/b");
    assert_eq!(path_join("C:", "b"), "C:b");
    assert_eq!(path_join("", "b"), "b");
    assert_eq!(path_join("1:", "b"), "1:\\b");
}

#[test]
fn the_directory_layout() {
    let base = "C:\\Users\\me\\AppData\\Local\\pm-win-shutdown";
    assert_eq!(log_dir(base), format!("{}\\log", base));
    assert_eq!(script_dir(base), format!("{}\\script", base));
    assert_eq!(installed_exe(base), format!("{}\\pm-win-shutdown.exe", base));
    assert_eq!(script_path(base, "login.bat"), format!("{}\\script\\login.bat", base));
    assert_eq!(script_path(base, "sleep_after.bat"), format!("{}\\script\\sleep_after.bat", base));
}

#[test]
fn log_file_is_named_after_the_day() {
    let today = DateTimeFields { year: 2026, month: 9, day: 15, hour: 1, minute: 2, second: 3, nanosecond: 4 };
    assert_eq!(log_file("C:\\b", &today), "C:\\b\\log\\20260915.txt");
    let early = DateTimeFields { year: 2026, month: 1, day: 5, hour: 0, minute: 0, second: 0, nanosecond: 0 };
    assert_eq!(log_file("C:\\b\\", &early), "C:\\b\\log\\20260105.txt");
}

#[test]
fn joining_any_name_follows_pathbuf_push() {
    // Relative names with several components, dots, or nothing at all.
    assert_eq!(path_join("C:\\b\\script", "sub\\x.bat"), "C:\\b\\script\\sub\\x.bat");
    assert_eq!(path_join("C:\\b\\script", "..\\x.bat"), "C:\\b\\script\\..\\x.bat");
    assert_eq!(path_join("C:\\b\\script", "."), "C:\\b\\script\\.");
    assert_eq!(path_join("C:\\b\\script", ""), format!("C:\\b\\script{}", '\\'));
    // A name with a prefix replaces the base.
    assert_eq!(path_join("C:\\b", "D:\\x.bat"), "D:\\x.bat");
    assert_eq!(path_join("C:\\b", "D:x.bat"), "D:x.bat");
    assert_eq!(path_join("C:\\b", "\\\\srv\\share\\x.bat"), "\\\\srv\\share\\x.bat");
    // A name with a root keeps only the base's prefix.
    assert_eq!(path_join("C:\\b\\c", "\\x.bat"), "C:\\x.bat");
    assert_eq!(path_join("\\\\srv\\share\\dir", "/x.bat"), "\\\\srv\\share/x.bat");
    assert_eq!(path_join("relative\\dir", "\\x.bat"), "\\x.bat");
    // `\\server` without a share is no prefix.
    assert_eq!(path_join("C:\\b", "\\\\srv"), "C:\\\\srv");
}

#[test]
fn script_paths_for_any_name() {
    assert_eq!(script_path("C:\\b", "sub\\x.bat"), "C:\\b\\script\\sub\\x.bat");
    assert_eq!(script_path("C:\\b", ""), format!("C:\\b\\script{}", '\\'));
    assert_eq!(script_path("C:\\b", "E:\\tools\\y.bat"), "E:\\tools\\y.bat");
}
