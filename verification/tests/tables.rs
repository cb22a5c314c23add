use std::collections::HashSet;

use windows_settings::cleanup::{cleanup_items, cleanup_script};
use windows_settings::services::{service_items, service_script};
use windows_settings::telemetry::{telemetry_items, telemetry_script};
use windows_settings::types::{CleanupId, MemOp, ServiceId, Status, TelemetryId};
use windows_settings::uwp::{uwp_apps, XBOX_GAME_BAR_PACKAGE};
use windows_settings::windows_update::{script_for, windows_update_actions};

const ALL_CLEANUP_IDS: [CleanupId; 28] = [
    CleanupId::RecycleBin,
    CleanupId::UserTemp,
    CleanupId::SystemTemp,
    CleanupId::CrashDumps,
    CleanupId::WerReports,
    CleanupId::MinidumpAndLkr,
    CleanupId::SoftwareDistribution,
    CleanupId::Catroot2,
    CleanupId::DeliveryOptimization,
    CleanupId::WindowsOld,
    CleanupId::UpgradeLeftovers,
    CleanupId::LastGood,
    CleanupId::Prefetch,
    CleanupId::FontCache,
    CleanupId::IconCache,
    CleanupId::ThumbnailCache,
    CleanupId::DnsCache,
    CleanupId::StoreCache,
    CleanupId::SearchCache,
    CleanupId::CbsDismLogs,
    CleanupId::PrintQueue,
    CleanupId::RecentFiles,
    CleanupId::EdgeCache,
    CleanupId::ChromeCache,
    CleanupId::FirefoxCache,
    CleanupId::WinSxSComponentCleanup,
    CleanupId::OldRestorePoints,
    CleanupId::HiberfilOff,
];

#[test]
fn test_cleanup_items_count() {
    let items = cleanup_items();
    assert_eq!(items.len(), 28, "expected 28 cleanup categories, got {}", items.len());
}

#[test]
fn test_cleanup_items_all_ids_covered() {
    let items = cleanup_items();
    for id in ALL_CLEANUP_IDS {
        assert!(items.iter().any(|i| i.id == id), "missing CleanupId {:?}", id);
    }
}

#[test]
fn test_cleanup_script_all_ids_covered() {
    for id in ALL_CLEANUP_IDS {
        let script = cleanup_script(id);
        assert!(!script.is_empty(), "empty cleanup script for {:?}", id);
    }
}

#[test]
fn test_dangerous_items() {
    let items = cleanup_items();
    let danger_ids: Vec<CleanupId> = items.iter().filter(|i| i.danger).map(|i| i.id).collect();
    assert!(danger_ids.contains(&CleanupId::WindowsOld), "WindowsOld should be dangerous");
    assert!(danger_ids.contains(&CleanupId::WinSxSComponentCleanup), "WinSxS should be dangerous");
    assert!(danger_ids.contains(&CleanupId::OldRestorePoints), "OldRestorePoints should be dangerous");
    assert!(danger_ids.contains(&CleanupId::HiberfilOff), "HiberfilOff should be dangerous");
    assert_eq!(danger_ids.len(), 4, "expected exactly 4 dangerous items, got {}", danger_ids.len());
}

#[test]
fn cleanup_items_follow_id_order_and_start_unknown() {
    let items = cleanup_items();
    for (item, id) in items.iter().zip(ALL_CLEANUP_IDS) {
        assert_eq!(item.id, id);
        assert!(!item.busy);
        assert!(item.log.is_none());
        assert_eq!(item.size, windows_settings::types::CleanupSize::Unknown);
    }
    assert_eq!(items[0].title, "Корзина");
}

#[test]
fn test_cleanup_id_key_roundtrip() {
    for id in ALL_CLEANUP_IDS {
        let key = id.key();
        assert!(!key.is_empty(), "key should not be empty for {:?}", id);
        assert_eq!(CleanupId::from_key(key), Some(id), "roundtrip failed for {:?}", id);
    }
}

#[test]
fn test_cleanup_id_from_key_invalid() {
    assert_eq!(CleanupId::from_key("nonexistent"), None);
    assert_eq!(CleanupId::from_key(""), None);
}

#[test]
fn test_telemetry_id_from_key() {
    assert_eq!(TelemetryId::from_key("office"), Some(TelemetryId::Office));
    assert_eq!(TelemetryId::from_key("firefox"), Some(TelemetryId::Firefox));
    assert_eq!(TelemetryId::from_key("chrome"), Some(TelemetryId::Chrome));
    assert_eq!(TelemetryId::from_key("nvidia"), Some(TelemetryId::Nvidia));
    assert_eq!(TelemetryId::from_key("vs"), Some(TelemetryId::VisualStudio));
    assert_eq!(TelemetryId::from_key("windows"), Some(TelemetryId::Windows));
    assert_eq!(TelemetryId::from_key("unknown"), None);
}

#[test]
fn test_mem_op_commands() {
    assert_eq!(MemOp::EmptyWorkingSets.command(), 2);
    assert_eq!(MemOp::FlushModified.command(), 3);
    assert_eq!(MemOp::PurgeStandby.command(), 4);
    assert_eq!(MemOp::PurgeLowPriorityStandby.command(), 5);
}

#[test]
fn test_mem_op_titles_not_empty() {
    for op in [MemOp::PurgeStandby, MemOp::PurgeLowPriorityStandby, MemOp::EmptyWorkingSets, MemOp::FlushModified] {
        assert!(!op.title().is_empty());
        assert!(!op.description().is_empty());
    }
}

#[test]
fn test_service_items_count() {
    let items = service_items();
    assert_eq!(items.len(), 9);
}

#[test]
fn test_service_id_key_roundtrip() {
    let ids = [
        ServiceId::DiagTrack,
        ServiceId::Dmwappushservice,
        ServiceId::WSearch,
        ServiceId::Dosvc,
        ServiceId::RetailDemo,
        ServiceId::XblGameSave,
        ServiceId::DcpSvc,
        ServiceId::PcaSvc,
        ServiceId::Bits,
    ];
    for id in ids {
        let key = id.key();
        assert!(!key.is_empty());
        assert_eq!(ServiceId::from_key(key), Some(id));
    }
}

#[test]
fn service_scripts_name_their_service() {
    assert!(service_script(ServiceId::Bits, true).contains("Stop-Service -Name 'BITS'"));
    assert!(service_script(ServiceId::Bits, false).contains("Start-Service -Name 'BITS'"));
    assert!(service_script(ServiceId::DiagTrack, true).contains("-StartupType Disabled"));
}

#[test]
fn test_telemetry_items_count() {
    let items = telemetry_items();
    assert_eq!(items.len(), 6, "expected 6 telemetry categories");
}

#[test]
fn test_telemetry_items_all_ids() {
    let items = telemetry_items();
    let ids: Vec<TelemetryId> = items.iter().map(|i| i.id).collect();
    assert!(ids.contains(&TelemetryId::Office));
    assert!(ids.contains(&TelemetryId::Firefox));
    assert!(ids.contains(&TelemetryId::Chrome));
    assert!(ids.contains(&TelemetryId::Nvidia));
    assert!(ids.contains(&TelemetryId::VisualStudio));
    assert!(ids.contains(&TelemetryId::Windows));
}

#[test]
fn test_telemetry_items_no_empty_fields() {
    for item in telemetry_items() {
        assert!(!item.title.is_empty(), "empty title");
        assert!(!item.description.is_empty(), "empty description for {}", item.title);
    }
}

#[test]
fn test_telemetry_script_all_ids_covered() {
    for id in [
        TelemetryId::Office,
        TelemetryId::Firefox,
        TelemetryId::Chrome,
        TelemetryId::Nvidia,
        TelemetryId::VisualStudio,
        TelemetryId::Windows,
    ] {
        let disable = telemetry_script(id, true);
        let enable = telemetry_script(id, false);
        assert!(!disable.is_empty(), "empty disable script for {:?}", id);
        assert!(!enable.is_empty(), "empty enable script for {:?}", id);
    }
}

#[test]
fn test_telemetry_items_unique_and_roundtrip() {
    let items = telemetry_items();
    let mut seen = HashSet::new();
    for item in items {
        let key = item.id.key();
        assert!(seen.insert(key), "duplicate telemetry key: {key}");
        assert_eq!(TelemetryId::from_key(key), Some(item.id));
        assert!(!item.title.trim().is_empty());
        assert!(!item.description.trim().is_empty());
    }
}

#[test]
fn test_telemetry_scripts_match_expected_operations() {
    let cases = [
        (TelemetryId::Office, "OfficeTelemetryAgent", "Enable-ScheduledTask"),
        (TelemetryId::Firefox, "DisableTelemetry", "Remove-ItemProperty"),
        (TelemetryId::Chrome, "GoogleUpdateTask", "Enable-ScheduledTask"),
        (TelemetryId::Nvidia, "NvTelemetryContainer", "Set-Service"),
        (TelemetryId::VisualStudio, "VSCommon", "Remove-ItemProperty"),
        (TelemetryId::Windows, "DiagTrack", "Set-Service"),
    ];
    for (id, disable_marker, enable_marker) in cases {
        let disable_script = telemetry_script(id, true);
        let enable_script = telemetry_script(id, false);
        assert!(!disable_script.is_empty());
        assert!(!enable_script.is_empty());
        assert_ne!(disable_script, enable_script);
        assert!(disable_script.contains(disable_marker), "missing disable marker for {:?}", id);
        assert!(enable_script.contains(enable_marker), "missing enable marker for {:?}", id);
    }
}

#[test]
fn test_uwp_apps_count() {
    let apps = uwp_apps();
    assert!(apps.len() >= 35, "expected at least 35 UWP apps, got {}", apps.len());
}

#[test]
fn test_uwp_apps_no_empty_fields() {
    for app in uwp_apps() {
        assert!(!app.title.is_empty(), "empty title");
        assert!(!app.package.is_empty(), "empty package for {}", app.title);
        assert!(!app.description.is_empty(), "empty description for {}", app.title);
    }
}

#[test]
fn test_uwp_apps_unique_packages() {
    let apps = uwp_apps();
    let mut seen = HashSet::new();
    for app in &apps {
        assert!(seen.insert(app.package.to_ascii_lowercase()), "duplicate package: {}", app.package);
    }
}

#[test]
fn test_uwp_apps_include_required_domain_entries() {
    let apps = uwp_apps();
    let packages: HashSet<_> = apps.iter().map(|app| app.package.as_str()).collect();
    for required in [
        "Microsoft.WindowsStore",
        "windows.immersivecontrolpanel",
        "Microsoft.XboxGamingOverlay",
        "Microsoft.DesktopAppInstaller",
    ] {
        assert!(packages.contains(required), "missing required package {required}");
    }
}

#[test]
fn test_uwp_apps_have_default_runtime_state() {
    for app in uwp_apps() {
        assert!(matches!(app.status, Status::Unknown));
        assert!(!app.busy);
        assert!(app.log.is_none());
    }
}

#[test]
fn test_xbox_game_bar_package_present_once() {
    let apps = uwp_apps();
    let count = apps
        .iter()
        .filter(|app| app.package.eq_ignore_ascii_case(XBOX_GAME_BAR_PACKAGE))
        .count();
    assert_eq!(count, 1);
}

#[test]
fn test_windows_update_actions_scripts() {
    for action in windows_update_actions() {
        let script = script_for(action);
        assert!(!script.is_empty(), "script should not be empty for {:?}", action);
        assert!(script.contains("ErrorActionPreference"));
    }
}
