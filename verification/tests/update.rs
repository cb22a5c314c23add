use windows_settings::types::UpdateState;
use windows_settings::update::{
    bearer_header, check_download_size, download_status_error, format_bytes,
    friendly_github_error, github_error_message, is_newer, is_rate_limit_error, no_exe_message,
    release_version_of, select_release_asset, update_temp_file_name, user_agent,
};

/// The byte formatting as written with floats, to hold the integer
/// formatting against.
fn float_format_bytes(bytes: u64) -> String {
    if bytes == 0 {
        return "0".to_string();
    }
    let units = ["Б", "КБ", "МБ", "ГБ", "ТБ"];
    let mut value = bytes as f64;
    let mut idx = 0;
    while value >= 1024.0 && idx < units.len() - 1 {
        value /= 1024.0;
        idx += 1;
    }
    if idx <= 1 {
        format!("{:.0} {}", value, units[idx])
    } else {
        format!("{:.2} {}", value, units[idx])
    }
}

#[test]
fn test_format_bytes_zero() {
    assert_eq!(format_bytes(0), "0");
}

#[test]
fn test_format_bytes_bytes() {
    assert_eq!(format_bytes(500), "500 Б");
}

#[test]
fn test_format_bytes_kilobytes() {
    assert_eq!(format_bytes(1024), "1 КБ");
}

#[test]
fn test_format_bytes_megabytes() {
    let result = format_bytes(1024 * 1024);
    assert!(result.contains("МБ"), "expected МБ in {result}");
}

#[test]
fn test_format_bytes_gigabytes() {
    let result = format_bytes(1024 * 1024 * 1024 * 4);
    assert!(result.contains("ГБ"), "expected ГБ in {result}");
}

#[test]
fn test_format_bytes_terabytes() {
    let result = format_bytes(1024u64.pow(4));
    assert!(result.contains("ТБ"), "expected ТБ in {result}");
}

#[test]
fn format_bytes_exact_values() {
    assert_eq!(format_bytes(1), "1 Б");
    assert_eq!(format_bytes(1023), "1023 Б");
    assert_eq!(format_bytes(1536), "2 КБ");
    assert_eq!(format_bytes(2560), "2 КБ");
    assert_eq!(format_bytes(1048575), "1024 КБ");
    assert_eq!(format_bytes(1024 * 1024), "1.00 МБ");
    assert_eq!(format_bytes(1024 * 1024 * 1024 * 4), "4.00 ГБ");
    assert_eq!(format_bytes(u64::MAX), "16777216.00 ТБ");
}

#[test]
fn format_bytes_agrees_with_float_formatting() {
    let mut samples: Vec<u64> = vec![
        0, 1, 9, 10, 511, 512, 513, 1000, 1023, 1024, 1025, 1535, 1536, 1537, 2559, 2560, 2561,
        3584, 10239, 10240, 1047552, 1048064, 1048575, 1048576, 1053818, 1059061, 5242880,
        123456789, 1073741823, 1073741824, 1099511627775, 1099511627776, 1 << 52, (1 << 53) - 1,
        1 << 53, (1 << 53) + 1, (1 << 53) + 2, (1 << 53) + 3, (1 << 54) + 2, (1 << 54) + 6,
        u64::MAX, u64::MAX - 1024, u64::MAX / 3, 9007199254740993, 18014398509481990,
    ];
    let mut x: u64 = 0x9E37_79B9_7F4A_7C15;
    for _ in 0..2000 {
        x ^= x << 13;
        x ^= x >> 7;
        x ^= x << 17;
        let shift = (x % 64) as u32;
        samples.push(x >> shift);
        let scale = 1u64 << (10 * (x % 5));
        samples.push(scale + (x >> 60) * (scale / 200 + 1));
    }
    for k in 0..5u32 {
        let scale = 1u64 << (10 * k);
        for m in [1u64, 3, 5, 7, 9, 11, 13, 15, 1023] {
            samples.push(scale * m / 2);
            samples.push(scale * m / 8);
            samples.push(scale * m / 200);
        }
    }
    for n in samples {
        assert_eq!(format_bytes(n), float_format_bytes(n), "bytes {n}");
    }
}

#[test]
fn test_is_newer_major() {
    assert!(is_newer("2.0.0", "1.0.0"));
    assert!(!is_newer("1.0.0", "2.0.0"));
}

#[test]
fn test_is_newer_minor() {
    assert!(is_newer("1.1.0", "1.0.0"));
    assert!(!is_newer("1.0.0", "1.1.0"));
}

#[test]
fn test_is_newer_patch() {
    assert!(is_newer("1.0.1", "1.0.0"));
    assert!(!is_newer("1.0.0", "1.0.1"));
}

#[test]
fn test_is_newer_equal() {
    assert!(!is_newer("1.0.0", "1.0.0"));
}

#[test]
fn test_is_newer_invalid() {
    assert!(is_newer("abc", "1.0.0"));
    assert!(!is_newer("1.0.0", "1.0.0"));
}

#[test]
fn is_newer_prerelease_and_unparsable_pairs() {
    assert!(is_newer("1.0.0", "1.0.0-rc.1"));
    assert!(!is_newer("1.0.0-rc.1", "1.0.0"));
    assert!(is_newer("1.0.0", "abc"));
    assert!(!is_newer("abc", "abc"));
    assert!(is_newer("v1.0.0", "1.0.0"));
}

#[test]
fn test_is_rate_limit_error() {
    assert!(is_rate_limit_error(&UpdateState::Error("HTTP 403".into())));
    assert!(!is_rate_limit_error(&UpdateState::Error("HTTP 404".into())));
    assert!(!is_rate_limit_error(&UpdateState::Idle));
}

#[test]
fn test_friendly_github_error_403() {
    let msg = friendly_github_error("403 Forbidden");
    assert!(msg.contains("403"));
    assert!(msg.contains("лимит"));
}

#[test]
fn test_friendly_github_error_404() {
    let msg = friendly_github_error("404 Not Found");
    assert!(msg.contains("404"));
}

#[test]
fn test_friendly_github_error_network() {
    let msg = friendly_github_error("dns resolve failed");
    assert!(msg.contains("интернет"));
}

#[test]
fn test_friendly_github_error_timeout() {
    let msg = friendly_github_error("connection timed out");
    assert!(msg.contains("интернет"));
}

#[test]
fn friendly_github_error_lowercases_and_falls_back() {
    assert_eq!(
        friendly_github_error("Connection REFUSED"),
        "Нет соединения с GitHub. Проверьте интернет и попробуйте снова."
    );
    assert_eq!(friendly_github_error("TIMEOUT"), friendly_github_error("timeout"));
    assert_eq!(friendly_github_error("weird"), "Не удалось получить данные с GitHub: weird");
    assert_eq!(github_error_message("X", "has 404"), "Репозиторий или релизы не найдены (HTTP 404).");
}

#[test]
fn release_helpers() {
    assert_eq!(release_version_of("vv1.2.3"), "1.2.3");
    assert_eq!(release_version_of("1.2.3v"), "1.2.3v");
    assert_eq!(no_exe_message("v1"), "В релизе v1 нет .exe-файла.");
    assert_eq!(user_agent(), "windows-settings/0.1.0");
    assert_eq!(bearer_header("t"), "Bearer t");
    assert_eq!(update_temp_file_name("20250101_000000"), "windows-settings.update.20250101_000000.exe");
}

#[test]
fn release_asset_selection() {
    let names = |v: &[&str]| v.iter().map(|s| s.to_string()).collect::<Vec<String>>();
    assert_eq!(select_release_asset(&names(&["a.zip", "other.EXE", "Windows-Settings.exe"])), Some(2));
    assert_eq!(select_release_asset(&names(&["a.zip", "other.EXE", "x.exe"])), Some(1));
    assert_eq!(select_release_asset(&names(&["a.zip", "exe"])), None);
    assert_eq!(select_release_asset(&[]), None);
}

#[test]
fn download_checks() {
    assert_eq!(check_download_size(0), Err("Загруженный файл оказался пустым.".to_string()));
    assert_eq!(
        check_download_size(100),
        Err("Загружено только 100 байт — это явно битый бинарь.".to_string())
    );
    assert_eq!(check_download_size(102399).is_err(), true);
    assert_eq!(check_download_size(102400), Ok(()));
    assert_eq!(download_status_error(200), None);
    assert_eq!(
        download_status_error(404),
        Some("Репозиторий или релизы не найдены (HTTP 404).".to_string())
    );
    assert_eq!(
        download_status_error(500),
        Some("Не удалось получить данные с GitHub: HTTP 500 при загрузке asset".to_string())
    );
}

#[test]
fn test_friendly_github_error_ignores_case() {
    let msg = friendly_github_error("DNS Lookup Failed");
    assert!(msg.contains("интернет"));
    let other = friendly_github_error("Bad Gateway");
    assert!(other.ends_with("Bad Gateway"));
}
