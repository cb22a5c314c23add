use windows_settings::time_win::{
    appdata_config_path, appdata_dir, appdata_logs_dir, appdata_settings_path,
    local_timestamp_filename, local_timestamp_pretty, SystemTimeWin,
};

fn sample_time() -> SystemTimeWin {
    SystemTimeWin {
        w_year: 2025,
        w_month: 3,
        w_day_of_week: 5,
        w_day: 7,
        w_hour: 9,
        w_minute: 5,
        w_second: 4,
        w_milliseconds: 12,
    }
}

#[test]
fn test_app_paths_have_expected_names() {
    let base = "C:\\Users\\u\\AppData\\Roaming";
    assert!(appdata_dir(base).ends_with("WindowsSettings"));
    assert!(appdata_logs_dir(base).ends_with("logs"));
    assert!(appdata_config_path(base).ends_with("config.json"));
    assert!(appdata_settings_path(base).ends_with("settings.conf"));
}

#[test]
fn app_paths_join_with_backslash() {
    assert_eq!(appdata_dir("C:\\A"), "C:\\A\\WindowsSettings");
    assert_eq!(appdata_dir("C:\\A\\"), "C:\\A\\WindowsSettings");
    assert_eq!(appdata_dir("."), ".\\WindowsSettings");
    assert_eq!(appdata_logs_dir("C:\\A"), "C:\\A\\WindowsSettings\\logs");
    assert_eq!(appdata_config_path(""), "WindowsSettings\\config.json");
}

#[test]
fn test_local_timestamp_filename_is_path_safe() {
    let ts = local_timestamp_filename(&sample_time());
    assert!(!ts.is_empty());
    assert!(!ts.chars().any(|c| matches!(c, '<' | '>' | ':' | '"' | '/' | '\\' | '|' | '?' | '*')));
}

#[test]
fn test_local_timestamp_pretty_not_empty() {
    assert!(!local_timestamp_pretty(&sample_time()).trim().is_empty());
}

#[test]
fn timestamps_are_zero_padded() {
    assert_eq!(local_timestamp_filename(&sample_time()), "20250307_090504");
    assert_eq!(local_timestamp_pretty(&sample_time()), "2025-03-07 09:05:04.012");
    let t = SystemTimeWin { w_year: 12345, w_milliseconds: 1000, ..SystemTimeWin::default() };
    assert_eq!(local_timestamp_pretty(&t), "12345-00-00 00:00:00.1000");
}

#[test]
fn app_paths_after_bare_drive() {
    assert_eq!(appdata_dir("C:"), "C:WindowsSettings");
    assert_eq!(appdata_logs_dir("C:"), "C:WindowsSettings\\logs");
    assert_eq!(appdata_config_path("d:"), "d:WindowsSettings\\config.json");
    assert_eq!(appdata_dir("C:\\"), "C:\\WindowsSettings");
    assert_eq!(appdata_dir("1:"), "1:\\WindowsSettings");
}

#[test]
fn app_paths_after_verbatim_base() {
    assert_eq!(appdata_dir(r"\\?\C:"), r"\\?\C:\WindowsSettings");
    assert_eq!(appdata_logs_dir(r"\\?\C:"), r"\\?\C:\WindowsSettings\logs");
    assert_eq!(appdata_config_path(r"\\?\C:"), r"\\?\C:\WindowsSettings\config.json");
    assert_eq!(appdata_settings_path(r"\\?\C:"), r"\\?\C:\WindowsSettings\settings.conf");
    assert_eq!(appdata_dir(r"\\?\C:\x\\y"), r"\\?\C:\x\y\WindowsSettings");
    assert_eq!(appdata_dir(r"\\?\C:\x/"), r"\\?\C:\x/\WindowsSettings");
    assert_eq!(appdata_dir(r"\\?\C:\x\"), r"\\?\C:\x\WindowsSettings");
    assert_eq!(appdata_dir(r"\\?\C:\"), r"\\?\C:\WindowsSettings");
    assert_eq!(appdata_dir(r"\\?\C:x"), r"\\?\C:x\WindowsSettings");
    assert_eq!(appdata_dir(r"\\?\UNC\srv\share\\d"), r"\\?\UNC\srv\share\d\WindowsSettings");
    assert_eq!(appdata_dir(r"\\?\UNC\srv"), r"\\?\UNC\srv\WindowsSettings");
    assert_eq!(appdata_dir(r"\\?\"), r"\\?\\WindowsSettings");
    assert_eq!(appdata_logs_dir(r"\\?\C:\a\\b\"), r"\\?\C:\a\b\WindowsSettings\logs");
}
