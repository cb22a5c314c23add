//! The cleanup page: its categories, the script that clears each one, and
//! how the size report is read.

use vstd::prelude::*;

use crate::text::{
    chars_of, kv_bounds, parse_unsigned, parse_unsigned_range, range_eq_str, split, split_bounds,
    split_once, starts_with, string_of_range, trim,
};
use crate::types::{all_cleanup_ids, CleanupId, CleanupItem, CleanupSize};

verus! {

pub open spec fn spec_cleanup_title(id: CleanupId) -> Seq<char> {
    match id {
        CleanupId::RecycleBin => "Корзина"@,
        CleanupId::UserTemp => "Временные файлы пользователя"@,
        CleanupId::SystemTemp => "Временные файлы Windows"@,
        CleanupId::CrashDumps => "Дампы падений (CrashDumps)"@,
        CleanupId::WerReports => "Отчёты Windows Error Reporting"@,
        CleanupId::MinidumpAndLkr => "MEMORY.DMP / Minidump / LiveKernelReports"@,
        CleanupId::SoftwareDistribution => "Кэш Windows Update"@,
        CleanupId::Catroot2 => "catroot2"@,
        CleanupId::DeliveryOptimization => "Delivery Optimization Cache"@,
        CleanupId::WindowsOld => "Предыдущая Windows (Windows.old)"@,
        CleanupId::UpgradeLeftovers => "Остатки апгрейда"@,
        CleanupId::LastGood => "LastGood / LastGood.tmp"@,
        CleanupId::Prefetch => "Prefetch"@,
        CleanupId::FontCache => "Кэш шрифтов"@,
        CleanupId::IconCache => "Кэш значков"@,
        CleanupId::ThumbnailCache => "Кэш миниатюр"@,
        CleanupId::DnsCache => "DNS-кэш"@,
        CleanupId::StoreCache => "Кэш Microsoft Store"@,
        CleanupId::SearchCache => "Кэш Windows Search"@,
        CleanupId::CbsDismLogs => "Логи CBS и DISM"@,
        CleanupId::PrintQueue => "Очередь печати"@,
        CleanupId::RecentFiles => "Недавние документы"@,
        CleanupId::EdgeCache => "Кэш Microsoft Edge"@,
        CleanupId::ChromeCache => "Кэш Google Chrome"@,
        CleanupId::FirefoxCache => "Кэш Mozilla Firefox"@,
        CleanupId::WinSxSComponentCleanup => "Очистка WinSxS (компоненты)"@,
        CleanupId::OldRestorePoints => "Старые точки восстановления"@,
        CleanupId::HiberfilOff => "Отключить гибернацию (hiberfil.sys)"@,
    }
}

/// The name a category is listed under.
pub fn cleanup_title(id: CleanupId) -> (r: &'static str)
    ensures
        r@ == spec_cleanup_title(id),
{
    match id {
        CleanupId::RecycleBin => "Корзина",
        CleanupId::UserTemp => "Временные файлы пользователя",
        CleanupId::SystemTemp => "Временные файлы Windows",
        CleanupId::CrashDumps => "Дампы падений (CrashDumps)",
        CleanupId::WerReports => "Отчёты Windows Error Reporting",
        CleanupId::MinidumpAndLkr => "MEMORY.DMP / Minidump / LiveKernelReports",
        CleanupId::SoftwareDistribution => "Кэш Windows Update",
        CleanupId::Catroot2 => "catroot2",
        CleanupId::DeliveryOptimization => "Delivery Optimization Cache",
        CleanupId::WindowsOld => "Предыдущая Windows (Windows.old)",
        CleanupId::UpgradeLeftovers => "Остатки апгрейда",
        CleanupId::LastGood => "LastGood / LastGood.tmp",
        CleanupId::Prefetch => "Prefetch",
        CleanupId::FontCache => "Кэш шрифтов",
        CleanupId::IconCache => "Кэш значков",
        CleanupId::ThumbnailCache => "Кэш миниатюр",
        CleanupId::DnsCache => "DNS-кэш",
        CleanupId::StoreCache => "Кэш Microsoft Store",
        CleanupId::SearchCache => "Кэш Windows Search",
        CleanupId::CbsDismLogs => "Логи CBS и DISM",
        CleanupId::PrintQueue => "Очередь печати",
        CleanupId::RecentFiles => "Недавние документы",
        CleanupId::EdgeCache => "Кэш Microsoft Edge",
        CleanupId::ChromeCache => "Кэш Google Chrome",
        CleanupId::FirefoxCache => "Кэш Mozilla Firefox",
        CleanupId::WinSxSComponentCleanup => "Очистка WinSxS (компоненты)",
        CleanupId::OldRestorePoints => "Старые точки восстановления",
        CleanupId::HiberfilOff => "Отключить гибернацию (hiberfil.sys)",
    }
}

pub open spec fn spec_cleanup_description(id: CleanupId) -> Seq<char> {
    match id {
        CleanupId::RecycleBin => "Очистка корзины на всех дисках. Файлы удаляются безвозвратно."@,
        CleanupId::UserTemp => "%TEMP% и %LOCALAPPDATA%\\Temp — кэш установщиков, временные файлы программ."@,
        CleanupId::SystemTemp => "C:\\Windows\\Temp — временные файлы системы и установщиков."@,
        CleanupId::CrashDumps => "%LOCALAPPDATA%\\CrashDumps — дампы упавших процессов."@,
        CleanupId::WerReports => "%ProgramData%\\Microsoft\\Windows\\WER и пользовательский WER."@,
        CleanupId::MinidumpAndLkr => "C:\\Windows\\MEMORY.DMP, C:\\Windows\\Minidump\\*, C:\\Windows\\LiveKernelReports\\*."@,
        CleanupId::SoftwareDistribution => "C:\\Windows\\SoftwareDistribution\\Download — скачанные пакеты обновлений. Служба wuauserv будет временно остановлена."@,
        CleanupId::Catroot2 => "C:\\Windows\\System32\\catroot2 — кэш подписей обновлений. Службы cryptsvc/bits будут временно остановлены."@,
        CleanupId::DeliveryOptimization => "C:\\Windows\\SoftwareDistribution\\DeliveryOptimization и %ProgramData%\\Microsoft\\Windows\\DeliveryOptimization\\Cache."@,
        CleanupId::WindowsOld => "C:\\Windows.old — после удаления откатиться на старую версию ОС будет нельзя."@,
        CleanupId::UpgradeLeftovers => "$Windows.~BT, $Windows.~WS, $Windows.~LS, C:\\ESD, C:\\Windows\\Panther."@,
        CleanupId::LastGood => "C:\\Windows\\LastGood и C:\\Windows\\LastGood.tmp — резерв удачной конфигурации."@,
        CleanupId::Prefetch => "C:\\Windows\\Prefetch — кэш ускорения запуска приложений (перестроится)."@,
        CleanupId::FontCache => "FontCache служба остановится, кэш будет очищен и пересоздан."@,
        CleanupId::IconCache => "IconCache.db и iconcache_*.db в %LOCALAPPDATA%\\Microsoft\\Windows\\Explorer."@,
        CleanupId::ThumbnailCache => "thumbcache_*.db в %LOCALAPPDATA%\\Microsoft\\Windows\\Explorer."@,
        CleanupId::DnsCache => "ipconfig /flushdns — сбросить кэш DNS-резолвера."@,
        CleanupId::StoreCache => "wsreset.exe — сброс кэша магазина приложений."@,
        CleanupId::SearchCache => "%ProgramData%\\Microsoft\\Search\\Data\\Applications\\Windows. Служба WSearch будет остановлена, индекс будет перестроен."@,
        CleanupId::CbsDismLogs => "C:\\Windows\\Logs\\CBS\\*.log и C:\\Windows\\Logs\\DISM\\*.log."@,
        CleanupId::PrintQueue => "C:\\Windows\\System32\\spool\\PRINTERS — застрявшие задания на печать. Служба Spooler будет временно остановлена."@,
        CleanupId::RecentFiles => "%APPDATA%\\Microsoft\\Windows\\Recent — список недавно открытых файлов."@,
        CleanupId::EdgeCache => "%LOCALAPPDATA%\\Microsoft\\Edge\\User Data\\Default\\Cache."@,
        CleanupId::ChromeCache => "%LOCALAPPDATA%\\Google\\Chrome\\User Data\\Default\\Cache."@,
        CleanupId::FirefoxCache => "%LOCALAPPDATA%\\Mozilla\\Firefox\\Profiles\\*\\cache2."@,
        CleanupId::WinSxSComponentCleanup => "DISM /Online /Cleanup-Image /StartComponentCleanup /ResetBase. После этого старые обновления нельзя будет удалить."@,
        CleanupId::OldRestorePoints => "vssadmin delete shadows /for=C: /all /quiet — удалит ВСЕ теневые копии диска C:. Откат к точке восстановления станет невозможен."@,
        CleanupId::HiberfilOff => "powercfg -h off — освобождает место, равное размеру ОЗУ. Гибернация и быстрый запуск Windows отключатся."@,
    }
}

/// What clearing a category removes or changes.
pub fn cleanup_description(id: CleanupId) -> (r: &'static str)
    ensures
        r@ == spec_cleanup_description(id),
{
    match id {
        CleanupId::RecycleBin => "Очистка корзины на всех дисках. Файлы удаляются безвозвратно.",
        CleanupId::UserTemp => "%TEMP% и %LOCALAPPDATA%\\Temp — кэш установщиков, временные файлы программ.",
        CleanupId::SystemTemp => "C:\\Windows\\Temp — временные файлы системы и установщиков.",
        CleanupId::CrashDumps => "%LOCALAPPDATA%\\CrashDumps — дампы упавших процессов.",
        CleanupId::WerReports => "%ProgramData%\\Microsoft\\Windows\\WER и пользовательский WER.",
        CleanupId::MinidumpAndLkr => "C:\\Windows\\MEMORY.DMP, C:\\Windows\\Minidump\\*, C:\\Windows\\LiveKernelReports\\*.",
        CleanupId::SoftwareDistribution => "C:\\Windows\\SoftwareDistribution\\Download — скачанные пакеты обновлений. Служба wuauserv будет временно остановлена.",
        CleanupId::Catroot2 => "C:\\Windows\\System32\\catroot2 — кэш подписей обновлений. Службы cryptsvc/bits будут временно остановлены.",
        CleanupId::DeliveryOptimization => "C:\\Windows\\SoftwareDistribution\\DeliveryOptimization и %ProgramData%\\Microsoft\\Windows\\DeliveryOptimization\\Cache.",
        CleanupId::WindowsOld => "C:\\Windows.old — после удаления откатиться на старую версию ОС будет нельзя.",
        CleanupId::UpgradeLeftovers => "$Windows.~BT, $Windows.~WS, $Windows.~LS, C:\\ESD, C:\\Windows\\Panther.",
        CleanupId::LastGood => "C:\\Windows\\LastGood и C:\\Windows\\LastGood.tmp — резерв удачной конфигурации.",
        CleanupId::Prefetch => "C:\\Windows\\Prefetch — кэш ускорения запуска приложений (перестроится).",
        CleanupId::FontCache => "FontCache служба остановится, кэш будет очищен и пересоздан.",
        CleanupId::IconCache => "IconCache.db и iconcache_*.db в %LOCALAPPDATA%\\Microsoft\\Windows\\Explorer.",
        CleanupId::ThumbnailCache => "thumbcache_*.db в %LOCALAPPDATA%\\Microsoft\\Windows\\Explorer.",
        CleanupId::DnsCache => "ipconfig /flushdns — сбросить кэш DNS-резолвера.",
        CleanupId::StoreCache => "wsreset.exe — сброс кэша магазина приложений.",
        CleanupId::SearchCache => "%ProgramData%\\Microsoft\\Search\\Data\\Applications\\Windows. Служба WSearch будет остановлена, индекс будет перестроен.",
        CleanupId::CbsDismLogs => "C:\\Windows\\Logs\\CBS\\*.log и C:\\Windows\\Logs\\DISM\\*.log.",
        CleanupId::PrintQueue => "C:\\Windows\\System32\\spool\\PRINTERS — застрявшие задания на печать. Служба Spooler будет временно остановлена.",
        CleanupId::RecentFiles => "%APPDATA%\\Microsoft\\Windows\\Recent — список недавно открытых файлов.",
        CleanupId::EdgeCache => "%LOCALAPPDATA%\\Microsoft\\Edge\\User Data\\Default\\Cache.",
        CleanupId::ChromeCache => "%LOCALAPPDATA%\\Google\\Chrome\\User Data\\Default\\Cache.",
        CleanupId::FirefoxCache => "%LOCALAPPDATA%\\Mozilla\\Firefox\\Profiles\\*\\cache2.",
        CleanupId::WinSxSComponentCleanup => "DISM /Online /Cleanup-Image /StartComponentCleanup /ResetBase. После этого старые обновления нельзя будет удалить.",
        CleanupId::OldRestorePoints => "vssadmin delete shadows /for=C: /all /quiet — удалит ВСЕ теневые копии диска C:. Откат к точке восстановления станет невозможен.",
        CleanupId::HiberfilOff => "powercfg -h off — освобождает место, равное размеру ОЗУ. Гибернация и быстрый запуск Windows отключатся.",
    }
}

/// The categories whose clearing cannot be undone.
pub open spec fn spec_cleanup_danger(id: CleanupId) -> bool {
    match id {
        CleanupId::RecycleBin => false,
        CleanupId::UserTemp => false,
        CleanupId::SystemTemp => false,
        CleanupId::CrashDumps => false,
        CleanupId::WerReports => false,
        CleanupId::MinidumpAndLkr => false,
        CleanupId::SoftwareDistribution => false,
        CleanupId::Catroot2 => false,
        CleanupId::DeliveryOptimization => false,
        CleanupId::WindowsOld => true,
        CleanupId::UpgradeLeftovers => false,
        CleanupId::LastGood => false,
        CleanupId::Prefetch => false,
        CleanupId::FontCache => false,
        CleanupId::IconCache => false,
        CleanupId::ThumbnailCache => false,
        CleanupId::DnsCache => false,
        CleanupId::StoreCache => false,
        CleanupId::SearchCache => false,
        CleanupId::CbsDismLogs => false,
        CleanupId::PrintQueue => false,
        CleanupId::RecentFiles => false,
        CleanupId::EdgeCache => false,
        CleanupId::ChromeCache => false,
        CleanupId::FirefoxCache => false,
        CleanupId::WinSxSComponentCleanup => true,
        CleanupId::OldRestorePoints => true,
        CleanupId::HiberfilOff => true,
    }
}

pub fn cleanup_danger(id: CleanupId) -> (r: bool)
    ensures
        r == spec_cleanup_danger(id),
{
    match id {
        CleanupId::RecycleBin => false,
        CleanupId::UserTemp => false,
        CleanupId::SystemTemp => false,
        CleanupId::CrashDumps => false,
        CleanupId::WerReports => false,
        CleanupId::MinidumpAndLkr => false,
        CleanupId::SoftwareDistribution => false,
        CleanupId::Catroot2 => false,
        CleanupId::DeliveryOptimization => false,
        CleanupId::WindowsOld => true,
        CleanupId::UpgradeLeftovers => false,
        CleanupId::LastGood => false,
        CleanupId::Prefetch => false,
        CleanupId::FontCache => false,
        CleanupId::IconCache => false,
        CleanupId::ThumbnailCache => false,
        CleanupId::DnsCache => false,
        CleanupId::StoreCache => false,
        CleanupId::SearchCache => false,
        CleanupId::CbsDismLogs => false,
        CleanupId::PrintQueue => false,
        CleanupId::RecentFiles => false,
        CleanupId::EdgeCache => false,
        CleanupId::ChromeCache => false,
        CleanupId::FirefoxCache => false,
        CleanupId::WinSxSComponentCleanup => true,
        CleanupId::OldRestorePoints => true,
        CleanupId::HiberfilOff => true,
    }
}

/// A category as the page starts with it: size unknown, idle, no log.
pub open spec fn is_fresh_cleanup_item(item: CleanupItem, id: CleanupId) -> bool {
    &&& item.id == id
    &&& item.title@ == spec_cleanup_title(id)
    &&& item.description@ == spec_cleanup_description(id)
    &&& item.size == CleanupSize::Unknown
    &&& item.danger == spec_cleanup_danger(id)
    &&& !item.busy
    &&& item.log is None
}

fn cleanup_item(id: CleanupId) -> (r: CleanupItem)
    ensures
        is_fresh_cleanup_item(r, id),
{
    CleanupItem {
        id,
        title: cleanup_title(id).to_owned(),
        description: cleanup_description(id).to_owned(),
        size: CleanupSize::Unknown,
        danger: cleanup_danger(id),
        busy: false,
        log: None,
    }
}

/// The categories of the cleanup page, one per `CleanupId`, in order.
pub fn cleanup_items() -> (r: Vec<CleanupItem>)
    ensures
        r@.len() == all_cleanup_ids().len(),
        forall|k: int|
            0 <= k < r@.len() ==> is_fresh_cleanup_item(#[trigger] r@[k], all_cleanup_ids()[k]),
{
    let mut r: Vec<CleanupItem> = Vec::new();
    r.push(cleanup_item(CleanupId::RecycleBin));
    r.push(cleanup_item(CleanupId::UserTemp));
    r.push(cleanup_item(CleanupId::SystemTemp));
    r.push(cleanup_item(CleanupId::CrashDumps));
    r.push(cleanup_item(CleanupId::WerReports));
    r.push(cleanup_item(CleanupId::MinidumpAndLkr));
    r.push(cleanup_item(CleanupId::SoftwareDistribution));
    r.push(cleanup_item(CleanupId::Catroot2));
    r.push(cleanup_item(CleanupId::DeliveryOptimization));
    r.push(cleanup_item(CleanupId::WindowsOld));
    r.push(cleanup_item(CleanupId::UpgradeLeftovers));
    r.push(cleanup_item(CleanupId::LastGood));
    r.push(cleanup_item(CleanupId::Prefetch));
    r.push(cleanup_item(CleanupId::FontCache));
    r.push(cleanup_item(CleanupId::IconCache));
    r.push(cleanup_item(CleanupId::ThumbnailCache));
    r.push(cleanup_item(CleanupId::DnsCache));
    r.push(cleanup_item(CleanupId::StoreCache));
    r.push(cleanup_item(CleanupId::SearchCache));
    r.push(cleanup_item(CleanupId::CbsDismLogs));
    r.push(cleanup_item(CleanupId::PrintQueue));
    r.push(cleanup_item(CleanupId::RecentFiles));
    r.push(cleanup_item(CleanupId::EdgeCache));
    r.push(cleanup_item(CleanupId::ChromeCache));
    r.push(cleanup_item(CleanupId::FirefoxCache));
    r.push(cleanup_item(CleanupId::WinSxSComponentCleanup));
    r.push(cleanup_item(CleanupId::OldRestorePoints));
    r.push(cleanup_item(CleanupId::HiberfilOff));
    r
}

/// Prints one `key=value` line per category: bytes, `-1` where no size
/// applies, or `count:N` for the restore points.
pub const CLEANUP_SIZES_SCRIPT: &'static str = r#"
$ErrorActionPreference = 'SilentlyContinue'
$ProgressPreference = 'SilentlyContinue'

function Folder-Size {
    param([string]$Path)
    if (-not (Test-Path -LiteralPath $Path)) { return 0 }
    try {
        $sum = 0
        Get-ChildItem -LiteralPath $Path -Recurse -Force -ErrorAction SilentlyContinue |
            Where-Object { -not $_.PSIsContainer } |
            ForEach-Object { $sum += [int64]$_.Length }
        return [int64]$sum
    } catch { return 0 }
}

function Items-Size {
    param([string[]]$Paths)
    $sum = 0
    foreach ($p in $Paths) {
        $sum += Folder-Size $p
    }
    return [int64]$sum
}

function Glob-Size {
    param([string]$Pattern)
    $sum = 0
    try {
        Get-ChildItem -Path $Pattern -Force -ErrorAction SilentlyContinue |
            ForEach-Object {
                if ($_.PSIsContainer) { $sum += Folder-Size $_.FullName }
                else { $sum += [int64]$_.Length }
            }
    } catch {}
    return [int64]$sum
}

# Recycle Bin (all drives)
$rb = 0
try {
    foreach ($d in (Get-PSDrive -PSProvider FileSystem -ErrorAction SilentlyContinue)) {
        $p = Join-Path $d.Root '$Recycle.Bin'
        $rb += Folder-Size $p
    }
} catch {}
"recyclebin=$rb"

"usertemp=" + (Items-Size @($env:TEMP, (Join-Path $env:LOCALAPPDATA 'Temp')))
"systemtemp=" + (Folder-Size 'C:\Windows\Temp')
"crashdumps=" + (Folder-Size (Join-Path $env:LOCALAPPDATA 'CrashDumps'))
"wer=" + (Items-Size @(
    (Join-Path $env:ProgramData 'Microsoft\Windows\WER'),
    (Join-Path $env:LOCALAPPDATA 'Microsoft\Windows\WER')
))

$dump = 0
if (Test-Path 'C:\Windows\MEMORY.DMP') { $dump += (Get-Item 'C:\Windows\MEMORY.DMP').Length }
$dump += Folder-Size 'C:\Windows\Minidump'
$dump += Folder-Size 'C:\Windows\LiveKernelReports'
"minidump=$dump"

"wuadl=" + (Folder-Size 'C:\Windows\SoftwareDistribution\Download')
"catroot2=" + (Folder-Size 'C:\Windows\System32\catroot2')
"deliveryopt=" + (Items-Size @(
    'C:\Windows\SoftwareDistribution\DeliveryOptimization',
    (Join-Path $env:ProgramData 'Microsoft\Windows\DeliveryOptimization\Cache')
))

"windowsold=" + (Folder-Size 'C:\Windows.old')

$leftovers = 0
foreach ($p in @('C:\$Windows.~BT','C:\$Windows.~WS','C:\$Windows.~LS','C:\ESD','C:\Windows\Panther')) {
    $leftovers += Folder-Size $p
}
"upgradeleft=$leftovers"

"lastgood=" + (Items-Size @('C:\Windows\LastGood','C:\Windows\LastGood.tmp'))
"prefetch=" + (Folder-Size 'C:\Windows\Prefetch')
"fontcache=" + (Folder-Size 'C:\Windows\ServiceProfiles\LocalService\AppData\Local\FontCache')

$icon = 0
$icon += Glob-Size (Join-Path $env:LOCALAPPDATA 'IconCache.db')
$icon += Glob-Size (Join-Path $env:LOCALAPPDATA 'Microsoft\Windows\Explorer\iconcache_*.db')
"iconcache=$icon"

"thumbcache=" + (Glob-Size (Join-Path $env:LOCALAPPDATA 'Microsoft\Windows\Explorer\thumbcache_*.db'))
"dnscache=-1"
"storecache=-1"
"searchcache=" + (Folder-Size (Join-Path $env:ProgramData 'Microsoft\Search\Data\Applications\Windows'))

$logs = 0
$logs += Glob-Size 'C:\Windows\Logs\CBS\*'
$logs += Glob-Size 'C:\Windows\Logs\DISM\*'
"cbsdism=$logs"

"printq=" + (Folder-Size 'C:\Windows\System32\spool\PRINTERS')
"recent=" + (Folder-Size (Join-Path $env:APPDATA 'Microsoft\Windows\Recent'))
"edgecache=" + (Folder-Size (Join-Path $env:LOCALAPPDATA 'Microsoft\Edge\User Data\Default\Cache'))
"chromecache=" + (Folder-Size (Join-Path $env:LOCALAPPDATA 'Google\Chrome\User Data\Default\Cache'))

$ff = 0
$ffRoot = Join-Path $env:LOCALAPPDATA 'Mozilla\Firefox\Profiles'
if (Test-Path $ffRoot) {
    Get-ChildItem -LiteralPath $ffRoot -Directory -ErrorAction SilentlyContinue | ForEach-Object {
        $ff += Folder-Size (Join-Path $_.FullName 'cache2')
    }
}
"firefoxcache=$ff"

"winsxs=-1"

$rp = 0
try {
    foreach ($sc in (Get-CimInstance Win32_ShadowCopy -ErrorAction SilentlyContinue)) {
        # размер shadow copy не доступен напрямую — считаем количеством
        $rp += 1
    }
} catch {}
"restorepts=count:$rp"

$hib = 0
if (Test-Path 'C:\hiberfil.sys') {
    try { $hib = (Get-Item 'C:\hiberfil.sys' -Force).Length } catch {}
}
"hiberfil=$hib"
"#;

pub const RECYCLEBIN_CLEAN: &'static str = r#"
$ErrorActionPreference='Continue'
try {
    Clear-RecycleBin -Force -ErrorAction Stop
    Write-Output 'Корзина очищена.'
} catch {
    foreach ($d in (Get-PSDrive -PSProvider FileSystem -ErrorAction SilentlyContinue)) {
        $p = Join-Path $d.Root '$Recycle.Bin'
        if (Test-Path $p) {
            Get-ChildItem -LiteralPath $p -Force -ErrorAction SilentlyContinue |
                Remove-Item -Recurse -Force -ErrorAction SilentlyContinue
        }
    }
    Write-Output ('Корзина очищена (fallback). ' + $_.Exception.Message)
}
"#;

pub const USERTEMP_CLEAN: &'static str = r#"
$ErrorActionPreference='Continue'
foreach ($p in @($env:TEMP, (Join-Path $env:LOCALAPPDATA 'Temp'))) {
    if (Test-Path $p) {
        Get-ChildItem -LiteralPath $p -Force -ErrorAction SilentlyContinue |
            Remove-Item -Recurse -Force -ErrorAction SilentlyContinue
    }
}
Write-Output 'Временные файлы пользователя очищены.'
"#;

pub const SYSTEMTEMP_CLEAN: &'static str = r#"
$ErrorActionPreference='Continue'
$p = 'C:\Windows\Temp'
if (Test-Path $p) {
    Get-ChildItem -LiteralPath $p -Force -ErrorAction SilentlyContinue |
        Remove-Item -Recurse -Force -ErrorAction SilentlyContinue
}
Write-Output 'C:\Windows\Temp очищен.'
"#;

pub const CRASHDUMPS_CLEAN: &'static str = r#"
$ErrorActionPreference='Continue'
$p = Join-Path $env:LOCALAPPDATA 'CrashDumps'
if (Test-Path $p) {
    Get-ChildItem -LiteralPath $p -Force -ErrorAction SilentlyContinue |
        Remove-Item -Recurse -Force -ErrorAction SilentlyContinue
}
Write-Output 'Дампы падений удалены.'
"#;

pub const WER_CLEAN: &'static str = r#"
$ErrorActionPreference='Continue'
foreach ($p in @(
    (Join-Path $env:ProgramData 'Microsoft\Windows\WER'),
    (Join-Path $env:LOCALAPPDATA 'Microsoft\Windows\WER')
)) {
    if (Test-Path $p) {
        Get-ChildItem -LiteralPath $p -Recurse -Force -ErrorAction SilentlyContinue |
            Where-Object { -not $_.PSIsContainer } |
            Remove-Item -Force -ErrorAction SilentlyContinue
    }
}
Write-Output 'WER отчёты удалены.'
"#;

pub const MINIDUMP_CLEAN: &'static str = r#"
$ErrorActionPreference='Continue'
Remove-Item 'C:\Windows\MEMORY.DMP' -Force -ErrorAction SilentlyContinue
foreach ($p in @('C:\Windows\Minidump','C:\Windows\LiveKernelReports')) {
    if (Test-Path $p) {
        Get-ChildItem -LiteralPath $p -Recurse -Force -ErrorAction SilentlyContinue |
            Remove-Item -Recurse -Force -ErrorAction SilentlyContinue
    }
}
Write-Output 'MEMORY.DMP / Minidump / LiveKernelReports очищены.'
"#;

pub const WUADL_CLEAN: &'static str = r#"
$ErrorActionPreference='Continue'
Stop-Service -Name wuauserv -Force -ErrorAction SilentlyContinue
$p = 'C:\Windows\SoftwareDistribution\Download'
if (Test-Path $p) {
    Get-ChildItem -LiteralPath $p -Force -ErrorAction SilentlyContinue |
        Remove-Item -Recurse -Force -ErrorAction SilentlyContinue
}
Start-Service -Name wuauserv -ErrorAction SilentlyContinue
Write-Output 'Кэш Windows Update (SoftwareDistribution\Download) очищен.'
"#;

pub const CATROOT2_CLEAN: &'static str = r#"
$ErrorActionPreference='Continue'
Stop-Service -Name cryptsvc -Force -ErrorAction SilentlyContinue
Stop-Service -Name bits -Force -ErrorAction SilentlyContinue
$p = 'C:\Windows\System32\catroot2'
if (Test-Path $p) {
    Get-ChildItem -LiteralPath $p -Force -ErrorAction SilentlyContinue |
        Remove-Item -Recurse -Force -ErrorAction SilentlyContinue
}
Start-Service -Name bits -ErrorAction SilentlyContinue
Start-Service -Name cryptsvc -ErrorAction SilentlyContinue
Write-Output 'catroot2 очищен.'
"#;

pub const DELIVERYOPT_CLEAN: &'static str = r#"
$ErrorActionPreference='Continue'
Stop-Service -Name DoSvc -Force -ErrorAction SilentlyContinue
foreach ($p in @(
    'C:\Windows\SoftwareDistribution\DeliveryOptimization',
    (Join-Path $env:ProgramData 'Microsoft\Windows\DeliveryOptimization\Cache')
)) {
    if (Test-Path $p) {
        Get-ChildItem -LiteralPath $p -Recurse -Force -ErrorAction SilentlyContinue |
            Remove-Item -Recurse -Force -ErrorAction SilentlyContinue
    }
}
Start-Service -Name DoSvc -ErrorAction SilentlyContinue
Write-Output 'Delivery Optimization Cache очищен.'
"#;

pub const WINDOWSOLD_CLEAN: &'static str = r#"
$ErrorActionPreference='Continue'
$p = 'C:\Windows.old'
if (-not (Test-Path $p)) {
    Write-Output 'C:\Windows.old не найдена.'
    exit 0
}
try {
    takeown /F $p /R /D Y | Out-Null
    icacls $p /grant administrators:F /T /C /Q | Out-Null
} catch {}
Remove-Item -LiteralPath $p -Recurse -Force -ErrorAction SilentlyContinue
if (Test-Path $p) {
    Write-Output 'Часть файлов не удалось удалить (нужны права TrustedInstaller). Используйте «Очистка диска» от имени администратора.'
    exit 1
}
Write-Output 'C:\Windows.old удалена.'
"#;

pub const UPGRADELEFT_CLEAN: &'static str = r#"
$ErrorActionPreference='Continue'
foreach ($p in @('C:\$Windows.~BT','C:\$Windows.~WS','C:\$Windows.~LS','C:\ESD','C:\Windows\Panther')) {
    if (Test-Path $p) {
        try { takeown /F $p /R /D Y | Out-Null } catch {}
        try { icacls $p /grant administrators:F /T /C /Q | Out-Null } catch {}
        Remove-Item -LiteralPath $p -Recurse -Force -ErrorAction SilentlyContinue
    }
}
Write-Output 'Остатки апгрейда удалены.'
"#;

pub const LASTGOOD_CLEAN: &'static str = r#"
$ErrorActionPreference='Continue'
foreach ($p in @('C:\Windows\LastGood','C:\Windows\LastGood.tmp')) {
    if (Test-Path $p) {
        try { takeown /F $p /R /D Y | Out-Null } catch {}
        try { icacls $p /grant administrators:F /T /C /Q | Out-Null } catch {}
        Remove-Item -LiteralPath $p -Recurse -Force -ErrorAction SilentlyContinue
    }
}
Write-Output 'LastGood / LastGood.tmp удалены.'
"#;

pub const PREFETCH_CLEAN: &'static str = r#"
$ErrorActionPreference='Continue'
$p = 'C:\Windows\Prefetch'
if (Test-Path $p) {
    Get-ChildItem -LiteralPath $p -Force -ErrorAction SilentlyContinue |
        Remove-Item -Recurse -Force -ErrorAction SilentlyContinue
}
Write-Output 'Prefetch очищен.'
"#;

pub const FONTCACHE_CLEAN: &'static str = r#"
$ErrorActionPreference='Continue'
Stop-Service -Name FontCache -Force -ErrorAction SilentlyContinue
Stop-Service -Name FontCache3.0.0.0 -Force -ErrorAction SilentlyContinue
$p = 'C:\Windows\ServiceProfiles\LocalService\AppData\Local\FontCache'
if (Test-Path $p) {
    Get-ChildItem -LiteralPath $p -Recurse -Force -ErrorAction SilentlyContinue |
        Remove-Item -Recurse -Force -ErrorAction SilentlyContinue
}
Remove-Item 'C:\Windows\System32\FNTCACHE.DAT' -Force -ErrorAction SilentlyContinue
Start-Service -Name FontCache -ErrorAction SilentlyContinue
Write-Output 'Кэш шрифтов очищен.'
"#;

pub const ICONCACHE_CLEAN: &'static str = r#"
$ErrorActionPreference='Continue'
Remove-Item (Join-Path $env:LOCALAPPDATA 'IconCache.db') -Force -ErrorAction SilentlyContinue
Get-ChildItem (Join-Path $env:LOCALAPPDATA 'Microsoft\Windows\Explorer') -Filter 'iconcache_*.db' -Force -ErrorAction SilentlyContinue |
    Remove-Item -Force -ErrorAction SilentlyContinue
Write-Output 'Кэш значков очищен (перезагрузка/перезапуск проводника применит изменения).'
"#;

pub const THUMBCACHE_CLEAN: &'static str = r#"
$ErrorActionPreference='Continue'
Get-ChildItem (Join-Path $env:LOCALAPPDATA 'Microsoft\Windows\Explorer') -Filter 'thumbcache_*.db' -Force -ErrorAction SilentlyContinue |
    Remove-Item -Force -ErrorAction SilentlyContinue
Write-Output 'Кэш миниатюр очищен.'
"#;

pub const DNSCACHE_CLEAN: &'static str = r#"
ipconfig /flushdns | Out-Null
Write-Output 'DNS-кэш сброшен.'
"#;

pub const STORECACHE_CLEAN: &'static str = r#"
$ErrorActionPreference='Continue'
Start-Process -FilePath 'wsreset.exe' -ArgumentList '-i' -WindowStyle Hidden -ErrorAction SilentlyContinue
Write-Output 'Запущен wsreset.exe — кэш Microsoft Store будет сброшен.'
"#;

pub const SEARCHCACHE_CLEAN: &'static str = r#"
$ErrorActionPreference='Continue'
Stop-Service -Name WSearch -Force -ErrorAction SilentlyContinue
$p = Join-Path $env:ProgramData 'Microsoft\Search\Data\Applications\Windows'
if (Test-Path $p) {
    Get-ChildItem -LiteralPath $p -Recurse -Force -ErrorAction SilentlyContinue |
        Remove-Item -Recurse -Force -ErrorAction SilentlyContinue
}
Start-Service -Name WSearch -ErrorAction SilentlyContinue
Write-Output 'Кэш Windows Search очищен (индекс будет перестроен).'
"#;

pub const CBSDISM_CLEAN: &'static str = r#"
$ErrorActionPreference='Continue'
foreach ($p in @('C:\Windows\Logs\CBS','C:\Windows\Logs\DISM')) {
    if (Test-Path $p) {
        Get-ChildItem -LiteralPath $p -Force -ErrorAction SilentlyContinue |
            Remove-Item -Recurse -Force -ErrorAction SilentlyContinue
    }
}
Write-Output 'Логи CBS и DISM очищены.'
"#;

pub const PRINTQ_CLEAN: &'static str = r#"
$ErrorActionPreference='Continue'
Stop-Service -Name Spooler -Force -ErrorAction SilentlyContinue
$p = 'C:\Windows\System32\spool\PRINTERS'
if (Test-Path $p) {
    Get-ChildItem -LiteralPath $p -Force -ErrorAction SilentlyContinue |
        Remove-Item -Recurse -Force -ErrorAction SilentlyContinue
}
Start-Service -Name Spooler -ErrorAction SilentlyContinue
Write-Output 'Очередь печати очищена.'
"#;

pub const RECENT_CLEAN: &'static str = r#"
$ErrorActionPreference='Continue'
$p = Join-Path $env:APPDATA 'Microsoft\Windows\Recent'
if (Test-Path $p) {
    Get-ChildItem -LiteralPath $p -Recurse -Force -ErrorAction SilentlyContinue |
        Remove-Item -Recurse -Force -ErrorAction SilentlyContinue
}
Write-Output 'Список недавних документов очищен.'
"#;

pub const EDGECACHE_CLEAN: &'static str = r#"
$ErrorActionPreference='Continue'
$p = Join-Path $env:LOCALAPPDATA 'Microsoft\Edge\User Data\Default\Cache'
if (Test-Path $p) {
    Get-ChildItem -LiteralPath $p -Recurse -Force -ErrorAction SilentlyContinue |
        Remove-Item -Recurse -Force -ErrorAction SilentlyContinue
}
Write-Output 'Кэш Microsoft Edge очищен.'
"#;

pub const CHROMECACHE_CLEAN: &'static str = r#"
$ErrorActionPreference='Continue'
$p = Join-Path $env:LOCALAPPDATA 'Google\Chrome\User Data\Default\Cache'
if (Test-Path $p) {
    Get-ChildItem -LiteralPath $p -Recurse -Force -ErrorAction SilentlyContinue |
        Remove-Item -Recurse -Force -ErrorAction SilentlyContinue
}
Write-Output 'Кэш Google Chrome очищен.'
"#;

pub const FIREFOXCACHE_CLEAN: &'static str = r#"
$ErrorActionPreference='Continue'
$root = Join-Path $env:LOCALAPPDATA 'Mozilla\Firefox\Profiles'
if (Test-Path $root) {
    Get-ChildItem -LiteralPath $root -Directory -ErrorAction SilentlyContinue | ForEach-Object {
        $c = Join-Path $_.FullName 'cache2'
        if (Test-Path $c) {
            Get-ChildItem -LiteralPath $c -Recurse -Force -ErrorAction SilentlyContinue |
                Remove-Item -Recurse -Force -ErrorAction SilentlyContinue
        }
    }
}
Write-Output 'Кэш Mozilla Firefox очищен.'
"#;

pub const WINSXS_CLEAN: &'static str = r#"
$ErrorActionPreference='Continue'
$out = (Dism.exe /Online /Cleanup-Image /StartComponentCleanup /ResetBase 2>&1 | Out-String)
Write-Output $out
"#;

pub const RESTOREPTS_CLEAN: &'static str = r#"
$ErrorActionPreference='Continue'
$out = (vssadmin.exe delete shadows /for=C: /all /quiet 2>&1 | Out-String)
Write-Output $out
"#;

pub const HIBERFIL_CLEAN: &'static str = r#"
$ErrorActionPreference='Continue'
$out = (powercfg.exe /h off 2>&1 | Out-String)
if (-not $out.Trim()) { $out = 'powercfg /h off выполнено.' }
Write-Output $out
"#;

/// The script that clears a category.
pub open spec fn spec_cleanup_script(id: CleanupId) -> Seq<char> {
    match id {
        CleanupId::RecycleBin => RECYCLEBIN_CLEAN@,
        CleanupId::UserTemp => USERTEMP_CLEAN@,
        CleanupId::SystemTemp => SYSTEMTEMP_CLEAN@,
        CleanupId::CrashDumps => CRASHDUMPS_CLEAN@,
        CleanupId::WerReports => WER_CLEAN@,
        CleanupId::MinidumpAndLkr => MINIDUMP_CLEAN@,
        CleanupId::SoftwareDistribution => WUADL_CLEAN@,
        CleanupId::Catroot2 => CATROOT2_CLEAN@,
        CleanupId::DeliveryOptimization => DELIVERYOPT_CLEAN@,
        CleanupId::WindowsOld => WINDOWSOLD_CLEAN@,
        CleanupId::UpgradeLeftovers => UPGRADELEFT_CLEAN@,
        CleanupId::LastGood => LASTGOOD_CLEAN@,
        CleanupId::Prefetch => PREFETCH_CLEAN@,
        CleanupId::FontCache => FONTCACHE_CLEAN@,
        CleanupId::IconCache => ICONCACHE_CLEAN@,
        CleanupId::ThumbnailCache => THUMBCACHE_CLEAN@,
        CleanupId::DnsCache => DNSCACHE_CLEAN@,
        CleanupId::StoreCache => STORECACHE_CLEAN@,
        CleanupId::SearchCache => SEARCHCACHE_CLEAN@,
        CleanupId::CbsDismLogs => CBSDISM_CLEAN@,
        CleanupId::PrintQueue => PRINTQ_CLEAN@,
        CleanupId::RecentFiles => RECENT_CLEAN@,
        CleanupId::EdgeCache => EDGECACHE_CLEAN@,
        CleanupId::ChromeCache => CHROMECACHE_CLEAN@,
        CleanupId::FirefoxCache => FIREFOXCACHE_CLEAN@,
        CleanupId::WinSxSComponentCleanup => WINSXS_CLEAN@,
        CleanupId::OldRestorePoints => RESTOREPTS_CLEAN@,
        CleanupId::HiberfilOff => HIBERFIL_CLEAN@,
    }
}

pub fn cleanup_script(id: CleanupId) -> (r: &'static str)
    ensures
        r@ == spec_cleanup_script(id),
{
    match id {
        CleanupId::RecycleBin => RECYCLEBIN_CLEAN,
        CleanupId::UserTemp => USERTEMP_CLEAN,
        CleanupId::SystemTemp => SYSTEMTEMP_CLEAN,
        CleanupId::CrashDumps => CRASHDUMPS_CLEAN,
        CleanupId::WerReports => WER_CLEAN,
        CleanupId::MinidumpAndLkr => MINIDUMP_CLEAN,
        CleanupId::SoftwareDistribution => WUADL_CLEAN,
        CleanupId::Catroot2 => CATROOT2_CLEAN,
        CleanupId::DeliveryOptimization => DELIVERYOPT_CLEAN,
        CleanupId::WindowsOld => WINDOWSOLD_CLEAN,
        CleanupId::UpgradeLeftovers => UPGRADELEFT_CLEAN,
        CleanupId::LastGood => LASTGOOD_CLEAN,
        CleanupId::Prefetch => PREFETCH_CLEAN,
        CleanupId::FontCache => FONTCACHE_CLEAN,
        CleanupId::IconCache => ICONCACHE_CLEAN,
        CleanupId::ThumbnailCache => THUMBCACHE_CLEAN,
        CleanupId::DnsCache => DNSCACHE_CLEAN,
        CleanupId::StoreCache => STORECACHE_CLEAN,
        CleanupId::SearchCache => SEARCHCACHE_CLEAN,
        CleanupId::CbsDismLogs => CBSDISM_CLEAN,
        CleanupId::PrintQueue => PRINTQ_CLEAN,
        CleanupId::RecentFiles => RECENT_CLEAN,
        CleanupId::EdgeCache => EDGECACHE_CLEAN,
        CleanupId::ChromeCache => CHROMECACHE_CLEAN,
        CleanupId::FirefoxCache => FIREFOXCACHE_CLEAN,
        CleanupId::WinSxSComponentCleanup => WINSXS_CLEAN,
        CleanupId::OldRestorePoints => RESTOREPTS_CLEAN,
        CleanupId::HiberfilOff => HIBERFIL_CLEAN,
    }
}

/// A size value of the report: `-1` means no size applies; `count:N` counts
/// restore points, where none means zero bytes and any means no size
/// applies; otherwise a byte count; anything unreadable is unknown.
pub open spec fn spec_cleanup_size_of(v: Seq<char>) -> CleanupSize {
    if v == "-1"@ {
        CleanupSize::NotApplicable
    } else if starts_with(v, "count:"@) {
        match parse_unsigned(v.skip("count:"@.len() as int), u64::MAX as nat) {
            Some(n) => if n == 0 {
                CleanupSize::Bytes(0)
            } else {
                CleanupSize::NotApplicable
            },
            None => CleanupSize::Unknown,
        }
    } else {
        match parse_unsigned(v, u64::MAX as nat) {
            Some(n) => CleanupSize::Bytes(n as u64),
            None => CleanupSize::Unknown,
        }
    }
}

fn size_value_range(v: &[char], lo: usize, hi: usize) -> (r: CleanupSize)
    requires
        lo <= hi <= v@.len(),
    ensures
        r == spec_cleanup_size_of(v@.subrange(lo as int, hi as int)),
{
    let ghost s = v@.subrange(lo as int, hi as int);
    proof {
        reveal_strlit("count:");
    }
    if range_eq_str(v, lo, hi, "-1") {
        return CleanupSize::NotApplicable;
    }
    if hi - lo >= 6 && range_eq_str(v, lo, lo + 6, "count:") {
        proof {
            assert(s.take(6) == v@.subrange(lo as int, lo + 6));
            assert(s.skip(6) == v@.subrange(lo + 6, hi as int));
        }
        return match parse_unsigned_range(v, lo + 6, hi, u64::MAX) {
            Some(n) => if n == 0 {
                CleanupSize::Bytes(0)
            } else {
                CleanupSize::NotApplicable
            },
            None => CleanupSize::Unknown,
        };
    }
    proof {
        if s.len() >= 6 {
            assert(s.take(6) == v@.subrange(lo as int, lo + 6));
        }
    }
    match parse_unsigned_range(v, lo, hi, u64::MAX) {
        Some(n) => CleanupSize::Bytes(n),
        None => CleanupSize::Unknown,
    }
}

/// Reads one size value of the report.
pub fn parse_cleanup_size(v: &str) -> (r: CleanupSize)
    ensures
        r == spec_cleanup_size_of(v@),
{
    let c = chars_of(v);
    proof {
        assert(c@.subrange(0, c@.len() as int) == c@);
    }
    size_value_range(c.as_slice(), 0, c.len())
}

/// One line of the size report: `key=value` with a known key adds that
/// category and its size; other lines are skipped.
pub open spec fn cleanup_step(acc: Seq<(CleanupId, CleanupSize)>, raw: Seq<char>) -> Seq<
    (CleanupId, CleanupSize),
> {
    match split_once(trim(raw), '=') {
        None => acc,
        Some((k, v)) => match CleanupId::spec_from_key(trim(k)) {
            Some(id) => acc.push((id, spec_cleanup_size_of(trim(v)))),
            None => acc,
        },
    }
}

pub open spec fn cleanup_lines(
    lines: Seq<Seq<char>>,
    acc: Seq<(CleanupId, CleanupSize)>,
) -> Seq<(CleanupId, CleanupSize)>
    decreases lines.len(),
{
    if lines.len() == 0 {
        acc
    } else {
        cleanup_lines(lines.drop_first(), cleanup_step(acc, lines[0]))
    }
}

pub open spec fn spec_parse_cleanup_sizes_output(out: Seq<char>) -> Seq<(CleanupId, CleanupSize)> {
    cleanup_lines(split(out, '\n'), Seq::empty())
}

/// Reads the report printed by `CLEANUP_SIZES_SCRIPT`.
pub fn parse_cleanup_sizes_output(out: &str) -> (r: Vec<(CleanupId, CleanupSize)>)
    ensures
        r@ == spec_parse_cleanup_sizes_output(out@),
{
    let v = chars_of(out);
    let lines = split_bounds(v.as_slice(), '\n');
    let ghost pieces = split(v@, '\n');
    let mut acc: Vec<(CleanupId, CleanupSize)> = Vec::new();
    let mut k: usize = 0;
    proof {
        assert(pieces.skip(0) == pieces);
    }
    while k < lines.len()
        invariant
            pieces == split(v@, '\n'),
            lines@.len() == pieces.len(),
            forall|j: int|
                0 <= j < lines@.len() ==> (#[trigger] lines@[j]).0 <= lines@[j].1 <= v@.len()
                    && v@.subrange(lines@[j].0 as int, lines@[j].1 as int) == pieces[j],
            k <= lines@.len(),
            spec_parse_cleanup_sizes_output(out@) == cleanup_lines(pieces.skip(k as int), acc@),
            v@ == out@,
        decreases lines.len() - k,
    {
        let (lo, hi) = lines[k];
        proof {
            assert(pieces.skip(k as int)[0] == pieces[k as int]);
            assert(pieces.skip(k as int).drop_first() == pieces.skip(k + 1));
        }
        match kv_bounds(v.as_slice(), lo, hi) {
            Some((ka, kb, va, vb)) => {
                let key = string_of_range(v.as_slice(), ka, kb);
                match CleanupId::from_key(key.as_str()) {
                    Some(id) => {
                        let size = size_value_range(v.as_slice(), va, vb);
                        acc.push((id, size));
                    },
                    None => {},
                }
            },
            None => {},
        }
        k = k + 1;
    }
    acc
}

} // verus!
