use windows_settings::app_state::AppState;
use windows_settings::config::{AppSettings, Config};
use windows_settings::logger::LogLevel;
use windows_settings::outcomes::{
    cleanup_new_size, cleanup_op_log, cleanup_task_name, finished_task, installed_counts,
    mem_op_log, packages_check_done, packages_check_started, services_check_done,
    services_check_started, sys_info_done, sys_info_started, telemetry_check_done,
    telemetry_check_started, remove_outcome, restore_outcome, service_outcome, service_task_name,
    service_task_start_log, telemetry_outcome, update_check_outcome, update_install_outcome,
};
use windows_settings::types::{
    CleanupId, CleanupSize, MemInfo, MemOp, Msg, Page, ServiceId, ServiceStatus, Status,
    TaskEntry, TaskStatus, TelemetryId, TelemetryStatus, UpdateState,
};
use windows_settings::ui::{
    card_button, card_click_action, cleanup_button, cleanup_size_label, display_value, mem_used,
    mem_used_line, nav_items, nav_page, os_line, page_is_beta, ram_line, service_button, telemetry_button,
    update_busy, update_status_text, user_line, CardAction,
};
use windows_settings::types::SysInfo;

fn state() -> AppState {
    AppState::new(Config { github_token: None }, AppSettings { log_level: LogLevel::Normal })
}

#[test]
fn test_app_new_initial_state() {
    let app = state();
    let nav = nav_items();

    assert!(matches!(app.view, Page::Home));
    assert_eq!(nav.len(), 5);
    assert_eq!(app.cards.len(), windows_settings::uwp::uwp_apps().len());
    assert_eq!(app.telemetry.len(), windows_settings::telemetry::telemetry_items().len());
    assert_eq!(app.cleanup_items.len(), windows_settings::cleanup::cleanup_items().len());
    assert!(matches!(app.update_state, UpdateState::Idle));
    assert!(app.sys_info.is_none());
    assert!(app.mem_info.is_none());
    assert!(!app.mem_busy);
    assert!(!app.mem_refresh_in_flight);
    assert!(!app.cleanup_refresh_in_flight);
    assert!(!app.cleanup_sizes_loaded);
    assert!(!app.show_token_dialog);
    assert!(app.token_input.is_empty());
    assert!(app.token_dialog_error.is_none());
}

#[test]
fn app_state_starts_idle() {
    let s = state();
    assert_eq!(s.view, Page::Home);
    assert_eq!(s.cards.len(), windows_settings::uwp::uwp_apps().len());
    assert_eq!(s.telemetry.len(), 6);
    assert_eq!(s.cleanup_items.len(), 28);
    assert_eq!(s.services.len(), 9);
    assert!(matches!(s.update_state, UpdateState::Idle));
    assert!(s.sys_info.is_none() && s.mem_info.is_none());
    assert!(!s.mem_busy && !s.mem_refresh_in_flight);
    assert!(!s.cleanup_refresh_in_flight && !s.cleanup_sizes_loaded);
    assert!(!s.show_token_dialog && s.token_input.is_empty() && s.token_dialog_error.is_none());
    assert!(s.tasks.is_empty());
}

#[test]
fn remove_cannot_start_twice_and_reply_settles_it() {
    let mut s = state();
    let pkg = s.begin_remove(0);
    assert_eq!(pkg.as_deref(), Some("Microsoft.WindowsStore"));
    assert!(s.cards[0].busy);
    assert_eq!(s.cards[0].log.as_deref(), Some("Удаление..."));
    assert_eq!(s.begin_remove(0), None);
    assert_eq!(s.begin_restore(0), None);
    assert_eq!(s.begin_remove(10_000), None);
    s.apply(Msg::OpDone { idx: 0, new_status: remove_outcome(true), log: "ok".to_string() });
    assert!(!s.cards[0].busy);
    assert_eq!(s.cards[0].status, Status::NotInstalled);
    assert_eq!(s.cards[0].log.as_deref(), Some("ok"));
    assert!(s.begin_restore(0).is_some());
}

#[test]
fn bulk_status_sets_first_matching_card() {
    let mut s = state();
    s.apply(Msg::BulkStatus(vec![
        ("Microsoft.WindowsStore".to_string(), true),
        ("no.such.package".to_string(), true),
        ("windows.immersivecontrolpanel".to_string(), false),
    ]));
    assert_eq!(s.cards[0].status, Status::Installed);
    let settings = s.cards.iter().find(|c| c.package == "windows.immersivecontrolpanel").unwrap();
    assert_eq!(settings.status, Status::NotInstalled);
}

#[test]
fn telemetry_cleanup_and_service_operations() {
    let mut s = state();
    assert!(s.begin_telemetry_op(TelemetryId::Chrome, true));
    assert!(!s.begin_telemetry_op(TelemetryId::Chrome, false));
    let t = s.telemetry.iter().find(|t| t.id == TelemetryId::Chrome).unwrap();
    assert_eq!(t.log.as_deref(), Some("Отключение..."));
    s.apply(Msg::TelemetryOpDone {
        id: TelemetryId::Chrome,
        new_status: telemetry_outcome(true, true),
        log: "done".to_string(),
    });
    let t = s.telemetry.iter().find(|t| t.id == TelemetryId::Chrome).unwrap();
    assert!(!t.busy);
    assert_eq!(t.status, TelemetryStatus::Disabled);

    assert!(s.begin_cleanup_op(CleanupId::DnsCache));
    assert!(!s.begin_cleanup_op(CleanupId::DnsCache));
    s.apply(Msg::CleanupOpDone { id: CleanupId::DnsCache, new_size: CleanupSize::Bytes(0), log: "x".into() });
    let c = s.cleanup_items.iter().find(|c| c.id == CleanupId::DnsCache).unwrap();
    assert!(!c.busy);
    assert_eq!(c.size, CleanupSize::Bytes(0));

    assert!(s.begin_service_op(ServiceId::Bits, false));
    assert!(!s.begin_service_op(ServiceId::Bits, true));
    s.apply(Msg::ServiceOpDone { id: ServiceId::Bits, new_status: service_outcome(false, false), log: "e".into() });
    let v = s.services.iter().find(|v| v.id == ServiceId::Bits).unwrap();
    assert!(!v.busy);
    assert_eq!(v.status, ServiceStatus::Disabled);
}

#[test]
fn memory_and_cleanup_flags() {
    let mut s = state();
    assert!(s.begin_mem_refresh());
    assert!(!s.begin_mem_refresh());
    let info = MemInfo { total_bytes: 8, avail_bytes: 3, standby_bytes: 0, modified_bytes: 0, free_bytes: 0, memory_load: 50 };
    s.apply(Msg::MemInfoReady(info));
    assert!(!s.mem_refresh_in_flight);
    assert_eq!(s.mem_info.unwrap().total_bytes, 8);
    assert!(s.begin_mem_op(MemOp::FlushModified));
    assert!(!s.begin_mem_op(MemOp::PurgeStandby));
    assert_eq!(s.mem_log.as_deref(), Some("Сбросить изменённые страницы: выполняется..."));
    s.apply(Msg::MemOpDone { id: MemOp::FlushModified, log: mem_op_log(true, "ok") });
    assert!(!s.mem_busy);
    assert_eq!(s.mem_log.as_deref(), Some("Сбросить изменённые страницы: успешно. ok"));

    assert!(s.cleanup_refresh_due());
    assert!(s.begin_cleanup_refresh());
    assert!(!s.cleanup_refresh_due());
    s.apply(Msg::CleanupSizesReady(vec![(CleanupId::HiberfilOff, CleanupSize::Bytes(42))]));
    assert!(s.cleanup_sizes_loaded && !s.cleanup_refresh_in_flight && !s.cleanup_refresh_due());
    let h = s.cleanup_items.iter().find(|c| c.id == CleanupId::HiberfilOff).unwrap();
    assert_eq!(h.size, CleanupSize::Bytes(42));
}

#[test]
fn task_reports_update_by_name() {
    let mut s = state();
    let mut e = TaskEntry::new("A");
    e.log = "1".to_string();
    s.apply(Msg::TaskUpdate(e));
    s.apply(Msg::TaskUpdate(finished_task("A", false, "boom")));
    s.apply(Msg::TaskUpdate(TaskEntry::new("B")));
    assert_eq!(s.tasks.len(), 2);
    assert_eq!(s.tasks[0].status, TaskStatus::Failed);
    assert_eq!(s.tasks[0].log, "Ошибка: boom");
    assert_eq!(s.tasks[1].name, "B");
}

#[test]
fn token_dialog_flow() {
    let mut s = state();
    s.open_token_dialog();
    assert!(s.show_token_dialog && s.token_input.is_empty());
    s.token_input = "   ".to_string();
    assert!(!s.submit_token());
    assert_eq!(s.token_dialog_error.as_deref(), Some("Поле токена пустое."));
    s.token_input = "  ghp_x ".to_string();
    assert!(s.submit_token());
    assert_eq!(s.config.github_token.as_deref(), Some("ghp_x"));
    s.finish_token_save(Err("disk".to_string()));
    assert_eq!(s.token_dialog_error.as_deref(), Some("Не удалось сохранить: disk"));
    s.finish_token_save(Ok(()));
    assert!(!s.show_token_dialog && s.token_input.is_empty() && s.token_dialog_error.is_none());
    s.open_token_dialog();
    assert_eq!(s.token_input, "ghp_x");
    s.clear_token();
    assert!(s.config.github_token.is_none());
    assert!(s.set_log_level(LogLevel::Debug));
    assert!(!s.set_log_level(LogLevel::Debug));
}

#[test]
fn outcomes_of_finished_operations() {
    assert_eq!(remove_outcome(false), Status::Installed);
    assert_eq!(restore_outcome(true), Status::Installed);
    assert_eq!(restore_outcome(false), Status::NotInstalled);
    assert_eq!(telemetry_outcome(false, true), TelemetryStatus::Enabled);
    assert_eq!(telemetry_outcome(true, false), TelemetryStatus::Enabled);
    assert_eq!(telemetry_outcome(false, false), TelemetryStatus::Disabled);
    assert_eq!(service_outcome(true, true), ServiceStatus::Disabled);
    assert_eq!(service_outcome(true, false), ServiceStatus::Running);
    assert_eq!(service_outcome(false, true), ServiceStatus::Running);
    assert_eq!(mem_op_log(false, "x"), "ошибка. x");
    assert_eq!(cleanup_op_log(true, "  "), "Готово.");
    assert_eq!(cleanup_op_log(true, "freed"), "freed");
    assert_eq!(cleanup_op_log(false, "no"), "Ошибка: no");
    let sizes = vec![(CleanupId::Prefetch, CleanupSize::Bytes(5)), (CleanupId::Prefetch, CleanupSize::Bytes(6))];
    assert_eq!(cleanup_new_size(&sizes, CleanupId::Prefetch), CleanupSize::Bytes(5));
    assert_eq!(cleanup_new_size(&sizes, CleanupId::EdgeCache), CleanupSize::Unknown);
    assert_eq!(cleanup_task_name(CleanupId::WinSxSComponentCleanup), "Очистка: WinSxSComponentCleanup");
    assert_eq!(service_task_name(ServiceId::Bits, true), "Служба Bits: отключение");
    assert_eq!(service_task_start_log(ServiceId::WSearch, false), "Включение службы WSearch...");
    let list = vec![("a".to_string(), true), ("b".to_string(), false), ("c".to_string(), true)];
    assert_eq!(installed_counts(&list), (2, 1));
    let t = finished_task("T", true, "ignored");
    assert_eq!((t.status, t.log.as_str()), (TaskStatus::Done, "Готово"));
}

#[test]
fn update_outcomes() {
    let (state, task) = update_check_outcome(Ok("9.9.9".to_string()), "0.1.0");
    assert!(matches!(state, UpdateState::Available { ref latest } if latest == "9.9.9"));
    assert_eq!(task.log, "Доступна версия 9.9.9");
    assert_eq!(task.status, TaskStatus::Done);
    let (state, task) = update_check_outcome(Ok("0.1.0".to_string()), "0.1.0");
    assert!(matches!(state, UpdateState::UpToDate { .. }));
    assert_eq!(task.log, "Актуальная версия: 0.1.0");
    let (state, task) = update_check_outcome(Err("net".to_string()), "0.1.0");
    assert!(matches!(state, UpdateState::Error(ref e) if e == "net"));
    assert_eq!((task.status, task.log.as_str()), (TaskStatus::Failed, "Ошибка: net"));
    assert!(matches!(update_install_outcome(Ok("2.0.0".into())), UpdateState::Done { ref from, ref to } if from == "0.1.0" && to == "2.0.0"));
}

#[test]
fn page_buttons_and_labels() {
    let s = state();
    let mut card = s.cards.into_iter().find(|c| c.package == "Microsoft.XboxGamingOverlay").unwrap();
    assert_eq!(card_button(&card).label, "Проверка...");
    assert!(!card_button(&card).enabled);
    card.status = Status::Installed;
    assert_eq!(card_button(&card).label, "Отключить");
    card.package = "Other".to_string();
    assert_eq!(card_button(&card).label, "Удалить");
    card.busy = true;
    assert_eq!(card_button(&card).label, "...");
    assert_eq!(card_click_action(Status::NotInstalled), CardAction::Restore);
    let mut t = windows_settings::telemetry::telemetry_items().remove(0);
    t.status = TelemetryStatus::Disabled;
    assert_eq!(telemetry_button(&t).label, "Включить");
    let mut v = windows_settings::services::service_items().remove(0);
    v.status = ServiceStatus::Stopped;
    assert_eq!(service_button(&v).label, "Включить");
    let mut c = windows_settings::cleanup::cleanup_items().remove(9);
    assert_eq!(cleanup_button(&c).label, "Выполнить");
    c.size = CleanupSize::Bytes(0);
    assert_eq!(cleanup_button(&c).label, "Пусто");
    assert!(!cleanup_button(&c).enabled);
    assert_eq!(cleanup_size_label(CleanupSize::Bytes(2048)), "• 2 КБ");
    assert_eq!(cleanup_size_label(CleanupSize::NotApplicable), "• системная операция");
}

#[test]
fn home_and_memory_lines() {
    let info = SysInfo {
        os: "Windows 11 Pro".into(),
        build: "26100".into(),
        arch: "64-bit".into(),
        hostname: "PC".into(),
        user: "Me".into(),
        is_admin: Some(false),
        cpu: String::new(),
        gpu: String::new(),
        ram_gb: String::new(),
    };
    assert_eq!(os_line(&info), "Windows 11 Pro (build 26100), 64-bit");
    assert_eq!(user_line(&info), "Me (без прав администратора)");
    assert_eq!(ram_line(&info), "—");
    assert_eq!(display_value("  "), "—");
    assert_eq!(display_value("x"), "x");
    let m = MemInfo { total_bytes: 1024, avail_bytes: 2048, standby_bytes: 0, modified_bytes: 0, free_bytes: 0, memory_load: 7 };
    assert_eq!(mem_used(&m), 0);
    let m = MemInfo { total_bytes: 3 * 1024 * 1024, avail_bytes: 1024 * 1024, ..m };
    assert_eq!(mem_used_line(&m), "2.00 МБ  (7%)");
    assert_eq!(update_status_text(&UpdateState::Available { latest: "1.2.3".into() }).0, "Доступна версия 1.2.3.");
    assert!(update_busy(&UpdateState::Installing));
    assert!(!update_busy(&UpdateState::Idle));
    assert_eq!(nav_page(5), Page::Services);
    assert_eq!(nav_page(9), Page::Home);
    assert!(page_is_beta(Page::Cleanup) && !page_is_beta(Page::Home));
}

#[test]
fn start_up_check_tasks() {
    let t = packages_check_started(37);
    assert_eq!(t.name, "UWP: проверка установленных пакетов");
    assert_eq!(t.status, TaskStatus::Running);
    assert_eq!(t.log, "Запрос статуса 37 пакетов...");
    let list = vec![("A".to_string(), true), ("B".to_string(), false), ("C".to_string(), true)];
    let t = packages_check_done(&list);
    assert_eq!(t.status, TaskStatus::Done);
    assert_eq!(t.log, "Готово: 2 установлено, 1 не установлено");
    assert_eq!(telemetry_check_started().log, "Запрос состояния телеметрии...");
    assert_eq!(telemetry_check_done(6).log, "Готово: 6 записей проверено");
    assert_eq!(telemetry_check_done(6).name, "Телеметрия: проверка состояния");
    assert_eq!(sys_info_started().name, "Система: сбор информации");
    let mut info = SysInfo::default();
    info.os = "Windows 11 Pro".to_string();
    info.cpu = "Intel".to_string();
    assert_eq!(sys_info_done(&info).log, "Готово: OS=Windows 11 Pro, CPU=Intel");
    assert_eq!(services_check_started().log, "Запрос состояния служб...");
    assert_eq!(services_check_done(9).log, "Готово: 9 служб проверено");
    assert_eq!(services_check_done(9).name, "Службы: проверка состояния");
}
