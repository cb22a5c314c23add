use windows_settings::cleanup::{parse_cleanup_size, parse_cleanup_sizes_output};
use windows_settings::memory::{build_mem_clean_script, mem_info_from_run, parse_mem_info_output};
use windows_settings::services::{parse_service_status_output, parse_service_status_value};
use windows_settings::system::{parse_sys_info_output, sys_info_from_run};
use windows_settings::telemetry::parse_telemetry_status_output;
use windows_settings::types::{
    CleanupId, CleanupSize, MemOp, ServiceId, ServiceStatus, TelemetryId, TelemetryStatus,
    WindowsUpdateAction,
};
use windows_settings::windows_update::windows_update_status_of;

#[test]
fn test_parse_mem_info_output_full() {
    let info = parse_mem_info_output(
        "noise\ntotal=17179869184;avail=8589934592;standby=2147483648;modified=1073741824;free=536870912;load=50\n",
    );
    assert_eq!(info.total_bytes, 17_179_869_184);
    assert_eq!(info.avail_bytes, 8_589_934_592);
    assert_eq!(info.standby_bytes, 2_147_483_648);
    assert_eq!(info.modified_bytes, 1_073_741_824);
    assert_eq!(info.free_bytes, 536_870_912);
    assert_eq!(info.memory_load, 50);
}

#[test]
fn test_parse_mem_info_output_skips_invalid_lines() {
    let info = parse_mem_info_output("total=oops;avail=1\ntotal=0;avail=2\ntotal=4096;avail=1024;load=75\n");
    assert_eq!(info.total_bytes, 4096);
    assert_eq!(info.avail_bytes, 1024);
    assert_eq!(info.memory_load, 75);
}

#[test]
fn mem_info_stops_after_first_line_with_total() {
    let info = parse_mem_info_output("total=10;avail=3\ntotal=20;avail=7;load=+9\n");
    assert_eq!(info.total_bytes, 10);
    assert_eq!(info.avail_bytes, 3);
    assert_eq!(info.memory_load, 0);
    let info = parse_mem_info_output(" load = +42 ; total = 5 ");
    assert_eq!(info.memory_load, 42);
    assert_eq!(info.total_bytes, 5);
    let info = parse_mem_info_output("load=4294967296;total=1");
    assert_eq!(info.memory_load, 0);
}

#[test]
fn mem_info_of_failed_run_is_zero() {
    let info = mem_info_from_run(false, "total=5");
    assert_eq!(info.total_bytes, 0);
    assert_eq!(mem_info_from_run(true, "total=5").total_bytes, 5);
}

#[test]
fn test_build_mem_clean_script_uses_expected_command() {
    let script = build_mem_clean_script(MemOp::FlushModified);
    assert!(script.contains("$Cmd = 3"));
    assert!(script.contains("NtSetSystemInformation"));
    assert!(script.contains("SeProfileSingleProcessPrivilege"));
}

#[test]
fn mem_clean_script_starts_with_command_line() {
    assert!(build_mem_clean_script(MemOp::PurgeStandby).starts_with("$Cmd = 4\n\n$ErrorActionPreference = 'Stop'"));
}

#[test]
fn test_parse_sys_info_output_full() {
    let info = parse_sys_info_output(
        "os=Windows 11 Pro\nbuild=26100\narch=64-bit\nhostname=DESKTOP\nuser=Admin\nadmin=True\ncpu=  Intel   Core   i7  \ngpu=NVIDIA RTX 4060\nram_gb=31.9\n",
    );
    assert_eq!(info.os, "Windows 11 Pro");
    assert_eq!(info.build, "26100");
    assert_eq!(info.arch, "64-bit");
    assert_eq!(info.hostname, "DESKTOP");
    assert_eq!(info.user, "Admin");
    assert_eq!(info.is_admin, Some(true));
    assert_eq!(info.cpu, "Intel Core i7");
    assert_eq!(info.gpu, "NVIDIA RTX 4060");
    assert_eq!(info.ram_gb, "31.9");
}

#[test]
fn test_parse_sys_info_output_ignores_unknown_and_invalid_admin() {
    let info = parse_sys_info_output("unknown=value\nadmin=maybe\nuser=Tester\nthis is noise\n");
    assert_eq!(info.user, "Tester");
    assert_eq!(info.is_admin, None);
    assert!(info.os.is_empty());
}

#[test]
fn test_parse_sys_info_output_false_admin() {
    let info = parse_sys_info_output("admin=False\n");
    assert_eq!(info.is_admin, Some(false));
}

#[test]
fn sys_info_keeps_later_values_and_collapses_tabs() {
    let info = parse_sys_info_output("user=A\r\nuser = B \ncpu=\tX\t\tY\u{3000}Z\ngpu=a=b\n");
    assert_eq!(info.user, "B");
    assert_eq!(info.cpu, "X Y Z");
    assert_eq!(info.gpu, "a=b");
    assert!(sys_info_from_run(false, "user=A").user.is_empty());
}

#[test]
fn test_parse_service_status_running_automatic() {
    assert_eq!(parse_service_status_value("running:automatic"), ServiceStatus::Running);
}

#[test]
fn test_parse_service_status_stopped_disabled() {
    assert_eq!(parse_service_status_value("stopped:disabled"), ServiceStatus::Disabled);
}

#[test]
fn test_parse_service_status_stopped_manual() {
    assert_eq!(parse_service_status_value("stopped:manual"), ServiceStatus::Stopped);
}

#[test]
fn test_parse_service_status_unknown() {
    assert_eq!(parse_service_status_value("unknown:unknown"), ServiceStatus::Unknown);
}

#[test]
fn test_parse_service_status_empty() {
    assert_eq!(parse_service_status_value(""), ServiceStatus::Unknown);
}

#[test]
fn test_parse_service_status_running_disabled() {
    assert_eq!(parse_service_status_value("running:disabled"), ServiceStatus::Disabled);
}

#[test]
fn service_status_value_edge_cases() {
    assert_eq!(parse_service_status_value("running"), ServiceStatus::Running);
    assert_eq!(parse_service_status_value("stopped:disabled:x"), ServiceStatus::Disabled);
    assert_eq!(parse_service_status_value(":disabled"), ServiceStatus::Disabled);
    assert_eq!(parse_service_status_value("Running:manual"), ServiceStatus::Unknown);
}

#[test]
fn service_status_output_is_read_line_by_line() {
    let out = "diagtrack=running:automatic\n\nbits = stopped:disabled\nnoise\nfoo=running:manual\nwsearch=stopped:manual\n";
    let r = parse_service_status_output(out);
    assert_eq!(
        r,
        vec![
            (ServiceId::DiagTrack, ServiceStatus::Running),
            (ServiceId::Bits, ServiceStatus::Disabled),
            (ServiceId::WSearch, ServiceStatus::Stopped),
        ]
    );
}

#[test]
fn test_parse_telemetry_status_output() {
    let statuses =
        parse_telemetry_status_output("office=disabled\nfirefox=enabled\nwindows=unknown\ninvalid=line\n");
    assert_eq!(statuses.len(), 3);
    assert!(statuses.contains(&(TelemetryId::Office, TelemetryStatus::Disabled)));
    assert!(statuses.contains(&(TelemetryId::Firefox, TelemetryStatus::Enabled)));
    assert!(statuses.contains(&(TelemetryId::Windows, TelemetryStatus::Unknown)));
}

#[test]
fn telemetry_status_output_keeps_order_and_repeats() {
    let statuses = parse_telemetry_status_output(" vs = Disabled \nvs=disabled\nchrome=enabled");
    assert_eq!(
        statuses,
        vec![
            (TelemetryId::VisualStudio, TelemetryStatus::Unknown),
            (TelemetryId::VisualStudio, TelemetryStatus::Disabled),
            (TelemetryId::Chrome, TelemetryStatus::Enabled),
        ]
    );
}

#[test]
fn cleanup_size_values() {
    assert_eq!(parse_cleanup_size("-1"), CleanupSize::NotApplicable);
    assert_eq!(parse_cleanup_size("count:0"), CleanupSize::Bytes(0));
    assert_eq!(parse_cleanup_size("count:5"), CleanupSize::NotApplicable);
    assert_eq!(parse_cleanup_size("count:x"), CleanupSize::Unknown);
    assert_eq!(parse_cleanup_size("123"), CleanupSize::Bytes(123));
    assert_eq!(parse_cleanup_size("+7"), CleanupSize::Bytes(7));
    assert_eq!(parse_cleanup_size(""), CleanupSize::Unknown);
    assert_eq!(parse_cleanup_size("18446744073709551616"), CleanupSize::Unknown);
    assert_eq!(parse_cleanup_size("-2"), CleanupSize::Unknown);
}

#[test]
fn cleanup_sizes_output_is_read_line_by_line() {
    let out = "winsxs=-1\nrestorepts=count:0\nhiberfil=123\nrecyclebin=abc\nbogus=1\nrestorepts=count:5\n";
    assert_eq!(
        parse_cleanup_sizes_output(out),
        vec![
            (CleanupId::WinSxSComponentCleanup, CleanupSize::NotApplicable),
            (CleanupId::OldRestorePoints, CleanupSize::Bytes(0)),
            (CleanupId::HiberfilOff, CleanupSize::Bytes(123)),
            (CleanupId::RecycleBin, CleanupSize::Unknown),
            (CleanupId::OldRestorePoints, CleanupSize::NotApplicable),
        ]
    );
}

#[test]
fn windows_update_status_reading() {
    assert_eq!(windows_update_status_of(" security \r\n"), WindowsUpdateAction::Security);
    assert_eq!(windows_update_status_of("disable"), WindowsUpdateAction::Disable);
    assert_eq!(windows_update_status_of("Disable"), WindowsUpdateAction::Default);
    assert_eq!(windows_update_status_of(""), WindowsUpdateAction::Default);
}

#[test]
fn mem_report_lines_after_a_total_are_not_read() {
    let a = "noise\ntotal=4096;avail=1024\n";
    let first = parse_mem_info_output(a);
    let more = parse_mem_info_output(&format!("{a}total=1;load=99;free=7\nfree=3\n"));
    assert_eq!(first.total_bytes, 4096);
    assert_eq!(more.total_bytes, first.total_bytes);
    assert_eq!(more.avail_bytes, first.avail_bytes);
    assert_eq!(more.free_bytes, first.free_bytes);
    assert_eq!(more.memory_load, first.memory_load);
}
