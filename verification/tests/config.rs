use windows_settings::config::{
    config_file_content, log_level_from_str, log_level_to_str, parse_config, parse_settings,
    settings_file_content, AppSettings, Config,
};
use windows_settings::json::{extract_json_string, json_escape};
use windows_settings::logger::LogLevel;

#[test]
fn config_file_roundtrip_keeps_token() {
    for token in ["ghp_test123", "a\"b\\c\nd\te\r\u{1}f/ü€😀", "  padded  "] {
        let cfg = Config { github_token: Some(token.to_string()) };
        let back = parse_config(&config_file_content(&cfg));
        assert_eq!(back.github_token, Some(token.trim().to_string()));
    }
    let cfg = Config { github_token: Some("   ".to_string()) };
    assert_eq!(parse_config(&config_file_content(&cfg)).github_token, None);
    let cfg = Config { github_token: None };
    assert_eq!(config_file_content(&cfg), "{}\n");
    assert_eq!(parse_config("{}\n").github_token, None);
}

#[test]
fn config_file_layout() {
    let cfg = Config { github_token: Some("x\"y".to_string()) };
    assert_eq!(config_file_content(&cfg), "{\n  \"github_token\": \"x\\\"y\"\n}\n");
}

#[test]
fn json_escape_writes_short_and_unicode_escapes() {
    assert_eq!(json_escape("a\"b"), "a\\\"b");
    assert_eq!(json_escape("\u{1}\u{1f}\u{8}"), "\\u0001\\u001f\\u0008");
    assert_eq!(json_escape("\n\r\t\\"), "\\n\\r\\t\\\\");
    assert_eq!(json_escape("é/"), "é/");
}

#[test]
fn json_string_values_are_decoded() {
    assert_eq!(extract_json_string("{\"k\": \"a\\nb\"}", "k"), Some("a\nb".to_string()));
    assert_eq!(extract_json_string("{\"k\":\"\\u0041\\u00e9\"}", "k"), Some("Aé".to_string()));
    assert_eq!(extract_json_string("{\"k\":\"\\ud800x\"}", "k"), Some("x".to_string()));
    assert_eq!(extract_json_string("{\"k\":\"\\x\\/\\b\\f\"}", "k"), Some("x/\u{8}\u{c}".to_string()));
    assert_eq!(extract_json_string("{\"k\":\"\\u+04a\"}", "k"), Some("J".to_string()));
    assert_eq!(extract_json_string("{\"k\":\"\\u12\"}", "k"), None);
    assert_eq!(extract_json_string("{\"k\":\"\\uzzzz\"}", "k"), None);
    assert_eq!(extract_json_string("{\"k\":\"open", "k"), None);
    assert_eq!(extract_json_string("{\"k\" 1}", "k"), None);
    assert_eq!(extract_json_string("{\"other\": \"v\"}", "k"), None);
    assert_eq!(extract_json_string("{\"kk\": \"1\", \"k\": \"2\"}", "k"), Some("2".to_string()));
}

#[test]
fn parse_config_trims_and_drops_blank_token() {
    assert_eq!(parse_config("{\"github_token\": \"  t  \"}").github_token, Some("t".to_string()));
    assert_eq!(parse_config("{\"github_token\": \"\"}").github_token, None);
    assert_eq!(parse_config("garbage").github_token, None);
}

#[test]
fn log_level_names() {
    assert_eq!(log_level_to_str(LogLevel::Normal), "normal");
    assert_eq!(log_level_to_str(LogLevel::Debug), "debug");
    assert_eq!(log_level_from_str(" NORMAL "), Some(LogLevel::Normal));
    assert_eq!(log_level_from_str("Debug\n"), Some(LogLevel::Debug));
    assert_eq!(log_level_from_str("verbose"), None);
    assert_eq!(log_level_from_str(log_level_to_str(LogLevel::Debug)), Some(LogLevel::Debug));
}

#[test]
fn settings_file_roundtrip() {
    for level in [LogLevel::Normal, LogLevel::Debug] {
        let s = AppSettings { log_level: level };
        let text = settings_file_content(&s);
        assert_eq!(parse_settings(&text), s);
        assert!(text.ends_with(&format!("log_level={}\n", log_level_to_str(level))));
    }
}

#[test]
fn settings_file_reading() {
    assert_eq!(parse_settings("").log_level, LogLevel::Normal);
    assert_eq!(parse_settings("  log_level = DEBUG  ").log_level, LogLevel::Debug);
    assert_eq!(parse_settings("# log_level=debug\n; log_level=debug").log_level, LogLevel::Normal);
    assert_eq!(parse_settings("log_level=debug\nlog_level=bogus").log_level, LogLevel::Debug);
    assert_eq!(parse_settings("log_level=debug\nlog_level=normal").log_level, LogLevel::Normal);
    assert_eq!(parse_settings("Log_Level=debug").log_level, LogLevel::Normal);
    assert_eq!(parse_settings("log_level\r\nlog_level=debug\r\n").log_level, LogLevel::Debug);
}
