use windows_settings::logger::{
    level_change_note, level_code, level_from_code, log_file_name, log_line, should_log, LogLevel,
};
use windows_settings::powershell::{
    base64_encode, combine_output, encode_powershell_script, powershell_result, utf16le_bytes,
};

#[test]
fn base64_known_vectors() {
    assert_eq!(base64_encode(b""), "");
    assert_eq!(base64_encode(b"f"), "Zg==");
    assert_eq!(base64_encode(b"fo"), "Zm8=");
    assert_eq!(base64_encode(b"foo"), "Zm9v");
    assert_eq!(base64_encode(b"foob"), "Zm9vYg==");
    assert_eq!(base64_encode(b"fooba"), "Zm9vYmE=");
    assert_eq!(base64_encode(b"foobar"), "Zm9vYmFy");
    assert_eq!(base64_encode(&[0xff, 0xfe, 0xfd]), "//79");
}

#[test]
fn base64_length_is_four_per_started_group() {
    for n in 0..20usize {
        let data = vec![7u8; n];
        assert_eq!(base64_encode(&data).len(), 4 * ((n + 2) / 3));
    }
}

#[test]
fn utf16le_encoding() {
    assert_eq!(utf16le_bytes("a"), vec![0x61, 0x00]);
    assert_eq!(utf16le_bytes("Ж"), vec![0x16, 0x04]);
    assert_eq!(utf16le_bytes("😀"), vec![0x3d, 0xd8, 0x00, 0xde]);
    let s = "Get-Item 'C:\\тест' 😀";
    let expected: Vec<u8> = s.encode_utf16().flat_map(|c| c.to_le_bytes()).collect();
    assert_eq!(utf16le_bytes(s), expected);
}

#[test]
fn encoded_command_examples() {
    assert_eq!(encode_powershell_script("a"), "YQA=");
    assert_eq!(encode_powershell_script("dir"), "ZABpAHIA");
}

#[test]
fn run_output_is_folded() {
    assert_eq!(combine_output("  out \n", " err ", false), (true, "out\nerr".to_string()));
    assert_eq!(combine_output("", " err ", false), (true, "err".to_string()));
    assert_eq!(combine_output(" out ", "", false), (true, "out".to_string()));
    assert_eq!(combine_output("", "", false), (false, String::new()));
    assert_eq!(combine_output("", "", true), (true, String::new()));
}

#[test]
fn run_output_bytes_are_decoded_lossily() {
    assert_eq!(powershell_result(b"ok\r\n", b"", true), (true, "ok".to_string()));
    assert_eq!(powershell_result(&[0x61, 0xff], b"", false), (true, "a\u{fffd}".to_string()));
    assert_eq!(
        powershell_result("привет".as_bytes(), b"", false),
        (true, "привет".to_string())
    );
}

#[test]
fn log_decisions() {
    assert!(should_log(LogLevel::Normal, LogLevel::Normal));
    assert!(should_log(LogLevel::Normal, LogLevel::Debug));
    assert!(!should_log(LogLevel::Debug, LogLevel::Normal));
    assert!(should_log(LogLevel::Debug, LogLevel::Debug));
    for level in [LogLevel::Normal, LogLevel::Debug] {
        assert_eq!(level_from_code(level_code(level)), level);
    }
    assert_eq!(level_from_code(7), LogLevel::Normal);
    assert_eq!(log_line("2025-01-02 03:04:05.006", LogLevel::Debug, "hi"), "[2025-01-02 03:04:05.006] [Debug] hi\n");
    assert_eq!(log_file_name("20250102_030405"), "run_20250102_030405.log");
    assert_eq!(level_change_note(0, LogLevel::Normal), None);
    assert_eq!(level_change_note(0, LogLevel::Debug), Some("Log level changed to Debug".to_string()));
}
