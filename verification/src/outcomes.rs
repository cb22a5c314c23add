//! What the background work decides once an operation has run: the new
//! status or size of the entry, the log it shows, the task entry for the
//! settings page and the update state after a check or an install.

use vstd::prelude::*;

use crate::app_state::find_first;
use crate::text::{chars_of, decimal, push_decimal, push_str, trim, trim_bounds};
use crate::types::{
    CleanupId, CleanupSize, ServiceId, ServiceStatus, Status, SysInfo, TaskEntry, TaskStatus,
    TelemetryStatus, UpdateState,
};
use crate::update::{is_newer, spec_is_newer, APP_VERSION};

verus! {

/// How a `CleanupId` prints with `{:?}`: its variant name.
pub open spec fn spec_cleanup_id_name(id: CleanupId) -> Seq<char> {
    match id {
        CleanupId::RecycleBin => "RecycleBin"@,
        CleanupId::UserTemp => "UserTemp"@,
        CleanupId::SystemTemp => "SystemTemp"@,
        CleanupId::CrashDumps => "CrashDumps"@,
        CleanupId::WerReports => "WerReports"@,
        CleanupId::MinidumpAndLkr => "MinidumpAndLkr"@,
        CleanupId::SoftwareDistribution => "SoftwareDistribution"@,
        CleanupId::Catroot2 => "Catroot2"@,
        CleanupId::DeliveryOptimization => "DeliveryOptimization"@,
        CleanupId::WindowsOld => "WindowsOld"@,
        CleanupId::UpgradeLeftovers => "UpgradeLeftovers"@,
        CleanupId::LastGood => "LastGood"@,
        CleanupId::Prefetch => "Prefetch"@,
        CleanupId::FontCache => "FontCache"@,
        CleanupId::IconCache => "IconCache"@,
        CleanupId::ThumbnailCache => "ThumbnailCache"@,
        CleanupId::DnsCache => "DnsCache"@,
        CleanupId::StoreCache => "StoreCache"@,
        CleanupId::SearchCache => "SearchCache"@,
        CleanupId::CbsDismLogs => "CbsDismLogs"@,
        CleanupId::PrintQueue => "PrintQueue"@,
        CleanupId::RecentFiles => "RecentFiles"@,
        CleanupId::EdgeCache => "EdgeCache"@,
        CleanupId::ChromeCache => "ChromeCache"@,
        CleanupId::FirefoxCache => "FirefoxCache"@,
        CleanupId::WinSxSComponentCleanup => "WinSxSComponentCleanup"@,
        CleanupId::OldRestorePoints => "OldRestorePoints"@,
        CleanupId::HiberfilOff => "HiberfilOff"@,
    }
}

pub fn cleanup_id_name(id: CleanupId) -> (r: &'static str)
    ensures
        r@ == spec_cleanup_id_name(id),
{
    match id {
        CleanupId::RecycleBin => "RecycleBin",
        CleanupId::UserTemp => "UserTemp",
        CleanupId::SystemTemp => "SystemTemp",
        CleanupId::CrashDumps => "CrashDumps",
        CleanupId::WerReports => "WerReports",
        CleanupId::MinidumpAndLkr => "MinidumpAndLkr",
        CleanupId::SoftwareDistribution => "SoftwareDistribution",
        CleanupId::Catroot2 => "Catroot2",
        CleanupId::DeliveryOptimization => "DeliveryOptimization",
        CleanupId::WindowsOld => "WindowsOld",
        CleanupId::UpgradeLeftovers => "UpgradeLeftovers",
        CleanupId::LastGood => "LastGood",
        CleanupId::Prefetch => "Prefetch",
        CleanupId::FontCache => "FontCache",
        CleanupId::IconCache => "IconCache",
        CleanupId::ThumbnailCache => "ThumbnailCache",
        CleanupId::DnsCache => "DnsCache",
        CleanupId::StoreCache => "StoreCache",
        CleanupId::SearchCache => "SearchCache",
        CleanupId::CbsDismLogs => "CbsDismLogs",
        CleanupId::PrintQueue => "PrintQueue",
        CleanupId::RecentFiles => "RecentFiles",
        CleanupId::EdgeCache => "EdgeCache",
        CleanupId::ChromeCache => "ChromeCache",
        CleanupId::FirefoxCache => "FirefoxCache",
        CleanupId::WinSxSComponentCleanup => "WinSxSComponentCleanup",
        CleanupId::OldRestorePoints => "OldRestorePoints",
        CleanupId::HiberfilOff => "HiberfilOff",
    }
}

/// How a `ServiceId` prints with `{:?}`: its variant name.
pub open spec fn spec_service_id_name(id: ServiceId) -> Seq<char> {
    match id {
        ServiceId::DiagTrack => "DiagTrack"@,
        ServiceId::Dmwappushservice => "Dmwappushservice"@,
        ServiceId::WSearch => "WSearch"@,
        ServiceId::Dosvc => "Dosvc"@,
        ServiceId::RetailDemo => "RetailDemo"@,
        ServiceId::XblGameSave => "XblGameSave"@,
        ServiceId::DcpSvc => "DcpSvc"@,
        ServiceId::PcaSvc => "PcaSvc"@,
        ServiceId::Bits => "Bits"@,
    }
}

pub fn service_id_name(id: ServiceId) -> (r: &'static str)
    ensures
        r@ == spec_service_id_name(id),
{
    match id {
        ServiceId::DiagTrack => "DiagTrack",
        ServiceId::Dmwappushservice => "Dmwappushservice",
        ServiceId::WSearch => "WSearch",
        ServiceId::Dosvc => "Dosvc",
        ServiceId::RetailDemo => "RetailDemo",
        ServiceId::XblGameSave => "XblGameSave",
        ServiceId::DcpSvc => "DcpSvc",
        ServiceId::PcaSvc => "PcaSvc",
        ServiceId::Bits => "Bits",
    }
}

/// A card's status after removing its package: not installed when the
/// removal went through, still installed when it failed.
pub fn remove_outcome(ok: bool) -> (r: Status)
    ensures
        r == (if ok {
            Status::NotInstalled
        } else {
            Status::Installed
        }),
{
    if ok {
        Status::NotInstalled
    } else {
        Status::Installed
    }
}

/// A card's status after restoring its package.
pub fn restore_outcome(ok: bool) -> (r: Status)
    ensures
        r == (if ok {
            Status::Installed
        } else {
            Status::NotInstalled
        }),
{
    if ok {
        Status::Installed
    } else {
        Status::NotInstalled
    }
}

/// An application's telemetry after switching it off (`disable`) or on:
/// the requested state when the script went through, the other one when it
/// failed.
pub fn telemetry_outcome(ok: bool, disable: bool) -> (r: TelemetryStatus)
    ensures
        r == (if ok == disable {
            TelemetryStatus::Disabled
        } else {
            TelemetryStatus::Enabled
        }),
{
    if ok {
        if disable {
            TelemetryStatus::Disabled
        } else {
            TelemetryStatus::Enabled
        }
    } else if disable {
        TelemetryStatus::Enabled
    } else {
        TelemetryStatus::Disabled
    }
}

/// A service's state after switching it off (`disable`) or on: disabled or
/// running as requested when the script went through, the other one when it
/// failed.
pub fn service_outcome(ok: bool, disable: bool) -> (r: ServiceStatus)
    ensures
        r == (if ok == disable {
            ServiceStatus::Disabled
        } else {
            ServiceStatus::Running
        }),
{
    if ok {
        if disable {
            ServiceStatus::Disabled
        } else {
            ServiceStatus::Running
        }
    } else if disable {
        ServiceStatus::Running
    } else {
        ServiceStatus::Disabled
    }
}

/// The log after a memory operation: success or failure, then the output.
pub fn mem_op_log(ok: bool, out: &str) -> (r: String)
    ensures
        r@ == (if ok {
            "успешно. "@
        } else {
            "ошибка. "@
        }) + out@,
{
    let mut s = String::new();
    if ok {
        push_str(&mut s, "успешно. ");
    } else {
        push_str(&mut s, "ошибка. ");
    }
    push_str(&mut s, out);
    s
}

/// The log of a cleaned category: the output, or `Готово.` where there was
/// none; on failure the output behind `Ошибка: `.
pub open spec fn spec_cleanup_op_log(ok: bool, out: Seq<char>) -> Seq<char> {
    if ok {
        if trim(out).len() == 0 {
            "Готово."@
        } else {
            out
        }
    } else {
        "Ошибка: "@ + out
    }
}

pub fn cleanup_op_log(ok: bool, out: &str) -> (r: String)
    ensures
        r@ == spec_cleanup_op_log(ok, out@),
{
    let mut s = String::new();
    if ok {
        let v = chars_of(out);
        proof {
            assert(v@.subrange(0, v@.len() as int) == v@);
        }
        let (a, b) = trim_bounds(v.as_slice(), 0, v.len());
        if a == b {
            push_str(&mut s, "Готово.");
        } else {
            push_str(&mut s, out);
        }
    } else {
        push_str(&mut s, "Ошибка: ");
        push_str(&mut s, out);
    }
    s
}

pub open spec fn size_with_id(id: CleanupId) -> spec_fn((CleanupId, CleanupSize)) -> bool {
    |e: (CleanupId, CleanupSize)| e.0 == id
}

/// The size a fresh count gives the category `id`: its first entry in the
/// count, unknown where it has none.
pub fn cleanup_new_size(sizes: &[(CleanupId, CleanupSize)], id: CleanupId) -> (r: CleanupSize)
    ensures
        r == (match find_first(sizes@, size_with_id(id)) {
            Some(i) => sizes@[i].1,
            None => CleanupSize::Unknown,
        }),
{
    let mut j: usize = 0;
    while j < sizes.len()
        invariant
            j <= sizes@.len(),
            forall|i: int| 0 <= i < j ==> !(size_with_id(id))(#[trigger] sizes@[i]),
        decreases sizes.len() - j,
    {
        if sizes[j].0 == id {
            proof {
                crate::app_state::lemma_find_first_at(sizes@, size_with_id(id), j as int);
            }
            return sizes[j].1;
        }
        j = j + 1;
    }
    proof {
        crate::app_state::lemma_find_first_none(sizes@, size_with_id(id));
    }
    CleanupSize::Unknown
}

/// A task entry.
pub fn task_entry(name: &str, status: TaskStatus, log: &str) -> (r: TaskEntry)
    ensures
        r.name@ == name@,
        r.status == status,
        r.log@ == log@,
{
    TaskEntry { name: name.to_owned(), status, log: log.to_owned() }
}

/// The task entry of a finished operation: done with `Готово`, or failed
/// with the output behind `Ошибка: `.
pub fn finished_task(name: &str, ok: bool, out: &str) -> (r: TaskEntry)
    ensures
        r.name@ == name@,
        r.status == (if ok {
            TaskStatus::Done
        } else {
            TaskStatus::Failed
        }),
        r.log@ == (if ok {
            "Готово"@
        } else {
            "Ошибка: "@ + out@
        }),
{
    let mut log = String::new();
    if ok {
        push_str(&mut log, "Готово");
    } else {
        push_str(&mut log, "Ошибка: ");
        push_str(&mut log, out);
    }
    TaskEntry {
        name: name.to_owned(),
        status: if ok {
            TaskStatus::Done
        } else {
            TaskStatus::Failed
        },
        log,
    }
}

/// The task name of clearing a category.
pub fn cleanup_task_name(id: CleanupId) -> (r: String)
    ensures
        r@ == "Очистка: "@ + spec_cleanup_id_name(id),
{
    let mut s = String::new();
    push_str(&mut s, "Очистка: ");
    push_str(&mut s, cleanup_id_name(id));
    s
}

/// The task name of switching a service off (`disable`) or on.
pub fn service_task_name(id: ServiceId, disable: bool) -> (r: String)
    ensures
        r@ == "Служба "@ + spec_service_id_name(id) + ": "@ + (if disable {
            "отключение"@
        } else {
            "включение"@
        }),
{
    let mut s = String::new();
    push_str(&mut s, "Служба ");
    push_str(&mut s, service_id_name(id));
    push_str(&mut s, ": ");
    if disable {
        push_str(&mut s, "отключение");
    } else {
        push_str(&mut s, "включение");
    }
    s
}

/// The log of a service switch while it runs.
pub fn service_task_start_log(id: ServiceId, disable: bool) -> (r: String)
    ensures
        r@ == (if disable {
            "Отключение"@
        } else {
            "Включение"@
        }) + " службы "@ + spec_service_id_name(id) + "..."@,
{
    let mut s = String::new();
    if disable {
        push_str(&mut s, "Отключение");
    } else {
        push_str(&mut s, "Включение");
    }
    push_str(&mut s, " службы ");
    push_str(&mut s, service_id_name(id));
    push_str(&mut s, "...");
    s
}

/// How many of the reported packages are installed.
pub open spec fn count_installed(list: Seq<(String, bool)>) -> nat
    decreases list.len(),
{
    if list.len() == 0 {
        0
    } else {
        count_installed(list.drop_last()) + if list.last().1 {
            1nat
        } else {
            0nat
        }
    }
}

/// Counting installed packages: an empty report has none, one more entry
/// adds one exactly when it says installed, and no report has more
/// installed packages than entries.
pub proof fn lemma_count_installed_law(list: Seq<(String, bool)>, entry: (String, bool))
    ensures
        count_installed(Seq::<(String, bool)>::empty()) == 0,
        count_installed(list.push(entry)) == count_installed(list) + if entry.1 {
            1nat
        } else {
            0nat
        },
        count_installed(list) <= list.len(),
    decreases list.len(),
{
    assert(list.push(entry).drop_last() =~= list);
    if list.len() > 0 {
        lemma_count_installed_law(list.drop_last(), list.last());
    }
}

/// The numbers of installed and of missing packages in a status report.
pub fn installed_counts(list: &[(String, bool)]) -> (r: (usize, usize))
    ensures
        r.0 == count_installed(list@),
        r.0 + r.1 == list@.len(),
{
    let mut yes: usize = 0;
    let mut no: usize = 0;
    let mut k: usize = 0;
    while k < list.len()
        invariant
            k <= list@.len(),
            yes == count_installed(list@.take(k as int)),
            yes + no == k,
        decreases list.len() - k,
    {
        proof {
            assert(list@.take(k + 1).drop_last() == list@.take(k as int));
            assert(list@.take(k + 1).last() == list@[k as int]);
        }
        if list[k].1 {
            yes = yes + 1;
        } else {
            no = no + 1;
        }
        k = k + 1;
    }
    proof {
        assert(list@.take(list@.len() as int) == list@);
    }
    (yes, no)
}

// ---------------------------------------------------------------------------
// The checks run at start-up
// ---------------------------------------------------------------------------

/// The task that asks which of the listed packages are installed.
pub const PACKAGES_CHECK_TASK: &'static str = "UWP: проверка установленных пакетов";

/// The task that asks for the state of the telemetry switches.
pub const TELEMETRY_CHECK_TASK: &'static str = "Телеметрия: проверка состояния";

/// The task that gathers the facts about the system.
pub const SYS_INFO_TASK: &'static str = "Система: сбор информации";

/// The task that asks for the state of the services.
pub const SERVICES_CHECK_TASK: &'static str = "Службы: проверка состояния";

/// The package check while it runs over `count` packages.
pub fn packages_check_started(count: usize) -> (r: TaskEntry)
    ensures
        r.name@ == PACKAGES_CHECK_TASK@,
        r.status == TaskStatus::Running,
        r.log@ == "Запрос статуса "@ + decimal(count as nat) + " пакетов..."@,
{
    let mut log = String::new();
    push_str(&mut log, "Запрос статуса ");
    push_decimal(&mut log, count as u64);
    push_str(&mut log, " пакетов...");
    TaskEntry { name: PACKAGES_CHECK_TASK.to_owned(), status: TaskStatus::Running, log }
}

/// The package check once the report is in: how many of the packages are
/// installed and how many are not.
pub fn packages_check_done(list: &[(String, bool)]) -> (r: TaskEntry)
    ensures
        r.name@ == PACKAGES_CHECK_TASK@,
        r.status == TaskStatus::Done,
        r.log@ == "Готово: "@ + decimal(count_installed(list@)) + " установлено, "@ + decimal(
            (list@.len() - count_installed(list@)) as nat,
        ) + " не установлено"@,
{
    let (yes, no) = installed_counts(list);
    let mut log = String::new();
    push_str(&mut log, "Готово: ");
    push_decimal(&mut log, yes as u64);
    push_str(&mut log, " установлено, ");
    push_decimal(&mut log, no as u64);
    push_str(&mut log, " не установлено");
    TaskEntry { name: PACKAGES_CHECK_TASK.to_owned(), status: TaskStatus::Done, log }
}

/// The telemetry check while it runs.
pub fn telemetry_check_started() -> (r: TaskEntry)
    ensures
        r.name@ == TELEMETRY_CHECK_TASK@,
        r.status == TaskStatus::Running,
        r.log@ == "Запрос состояния телеметрии..."@,
{
    task_entry(TELEMETRY_CHECK_TASK, TaskStatus::Running, "Запрос состояния телеметрии...")
}

/// The telemetry check once `count` entries were reported.
pub fn telemetry_check_done(count: usize) -> (r: TaskEntry)
    ensures
        r.name@ == TELEMETRY_CHECK_TASK@,
        r.status == TaskStatus::Done,
        r.log@ == "Готово: "@ + decimal(count as nat) + " записей проверено"@,
{
    let mut log = String::new();
    push_str(&mut log, "Готово: ");
    push_decimal(&mut log, count as u64);
    push_str(&mut log, " записей проверено");
    TaskEntry { name: TELEMETRY_CHECK_TASK.to_owned(), status: TaskStatus::Done, log }
}

/// Gathering the system facts while it runs.
pub fn sys_info_started() -> (r: TaskEntry)
    ensures
        r.name@ == SYS_INFO_TASK@,
        r.status == TaskStatus::Running,
        r.log@ == "Сбор сведений о системе..."@,
{
    task_entry(SYS_INFO_TASK, TaskStatus::Running, "Сбор сведений о системе...")
}

/// Gathering the system facts once they are in: the system and the
/// processor.
pub fn sys_info_done(info: &SysInfo) -> (r: TaskEntry)
    ensures
        r.name@ == SYS_INFO_TASK@,
        r.status == TaskStatus::Done,
        r.log@ == "Готово: OS="@ + info@.os + ", CPU="@ + info@.cpu,
{
    let mut log = String::new();
    push_str(&mut log, "Готово: OS=");
    push_str(&mut log, info.os.as_str());
    push_str(&mut log, ", CPU=");
    push_str(&mut log, info.cpu.as_str());
    TaskEntry { name: SYS_INFO_TASK.to_owned(), status: TaskStatus::Done, log }
}

/// The services check while it runs.
pub fn services_check_started() -> (r: TaskEntry)
    ensures
        r.name@ == SERVICES_CHECK_TASK@,
        r.status == TaskStatus::Running,
        r.log@ == "Запрос состояния служб..."@,
{
    task_entry(SERVICES_CHECK_TASK, TaskStatus::Running, "Запрос состояния служб...")
}

/// The services check once `count` services were reported.
pub fn services_check_done(count: usize) -> (r: TaskEntry)
    ensures
        r.name@ == SERVICES_CHECK_TASK@,
        r.status == TaskStatus::Done,
        r.log@ == "Готово: "@ + decimal(count as nat) + " служб проверено"@,
{
    let mut log = String::new();
    push_str(&mut log, "Готово: ");
    push_decimal(&mut log, count as u64);
    push_str(&mut log, " служб проверено");
    TaskEntry { name: SERVICES_CHECK_TASK.to_owned(), status: TaskStatus::Done, log }
}

/// The name of the update check on the settings page.
pub const UPDATE_CHECK_TASK: &'static str = "Обновление: проверка GitHub";

/// The update state after a check: the latest version is available when it
/// is newer than `current`, up to date otherwise, and an error carries its
/// message.
pub open spec fn spec_update_check_state(result: Result<String, String>, current: Seq<char>) -> UpdateState {
    match result {
        Ok(latest) => if spec_is_newer(latest@, current) {
            UpdateState::Available { latest }
        } else {
            UpdateState::UpToDate { latest }
        },
        Err(e) => UpdateState::Error(e),
    }
}

/// What an update check ends with: the update state and the task entry.
pub fn update_check_outcome(result: Result<String, String>, current: &str) -> (r: (
    UpdateState,
    TaskEntry,
))
    ensures
        r.0 == spec_update_check_state(result, current@),
        r.1.name@ == UPDATE_CHECK_TASK@,
        r.1.status == (if result is Ok {
            TaskStatus::Done
        } else {
            TaskStatus::Failed
        }),
        r.1.log@ == (match result {
            Ok(latest) => if spec_is_newer(latest@, current@) {
                "Доступна версия "@ + latest@
            } else {
                "Актуальная версия: "@ + latest@
            },
            Err(e) => "Ошибка: "@ + e@,
        }),
{
    match result {
        Ok(latest) => {
            let mut log = String::new();
            if is_newer(latest.as_str(), current) {
                push_str(&mut log, "Доступна версия ");
                push_str(&mut log, latest.as_str());
                let task = TaskEntry {
                    name: UPDATE_CHECK_TASK.to_owned(),
                    status: TaskStatus::Done,
                    log,
                };
                (UpdateState::Available { latest }, task)
            } else {
                push_str(&mut log, "Актуальная версия: ");
                push_str(&mut log, latest.as_str());
                let task = TaskEntry {
                    name: UPDATE_CHECK_TASK.to_owned(),
                    status: TaskStatus::Done,
                    log,
                };
                (UpdateState::UpToDate { latest }, task)
            }
        },
        Err(e) => {
            let mut log = String::new();
            push_str(&mut log, "Ошибка: ");
            push_str(&mut log, e.as_str());
            let task = TaskEntry {
                name: UPDATE_CHECK_TASK.to_owned(),
                status: TaskStatus::Failed,
                log,
            };
            (UpdateState::Error(e), task)
        },
    }
}

/// The update state after an install: done from this version to the new
/// one, or the error.
pub fn update_install_outcome(result: Result<String, String>) -> (r: UpdateState)
    ensures
        match result {
            Ok(v) => r matches UpdateState::Done { from, to } && from@ == APP_VERSION@ && to == v,
            Err(e) => r == UpdateState::Error(e),
        },
{
    match result {
        Ok(to) => UpdateState::Done { from: APP_VERSION.to_owned(), to },
        Err(e) => UpdateState::Error(e),
    }
}

} // verus!
