//! The telemetry page: which applications it covers, the scripts that
//! switch their telemetry off and on, and how the status report is read.

use vstd::prelude::*;

use crate::text::{
    chars_of, kv_bounds, range_eq_str, split, split_bounds, split_once, string_of_range, trim,
};
use crate::types::{TelemetryId, TelemetryItem, TelemetryStatus};

verus! {
/// The applications in the order the page lists them.
pub open spec fn all_telemetry_ids() -> Seq<TelemetryId> {
    seq![TelemetryId::Office, TelemetryId::Firefox, TelemetryId::Chrome, TelemetryId::Nvidia, TelemetryId::VisualStudio, TelemetryId::Windows]
}
pub open spec fn spec_telemetry_title(id: TelemetryId) -> Seq<char> {
    match id {
        TelemetryId::Office => "Microsoft Office"@,
        TelemetryId::Firefox => "Mozilla Firefox"@,
        TelemetryId::Chrome => "Google Chrome"@,
        TelemetryId::Nvidia => "NVIDIA"@,
        TelemetryId::VisualStudio => "Visual Studio (VSCEIP)"@,
        TelemetryId::Windows => "Windows 11"@,
    }
}

/// The name an application is listed under.
pub fn telemetry_title(id: TelemetryId) -> (r: &'static str)
    ensures
        r@ == spec_telemetry_title(id),
{
    match id {
        TelemetryId::Office => "Microsoft Office",
        TelemetryId::Firefox => "Mozilla Firefox",
        TelemetryId::Chrome => "Google Chrome",
        TelemetryId::Nvidia => "NVIDIA",
        TelemetryId::VisualStudio => "Visual Studio (VSCEIP)",
        TelemetryId::Windows => "Windows 11",
    }
}
pub open spec fn spec_telemetry_description(id: TelemetryId) -> Seq<char> {
    match id {
        TelemetryId::Office => "OfficeTelemetryAgent, ClientTelemetry и связанные задачи планировщика."@,
        TelemetryId::Firefox => "Политики DisableTelemetry, DisableFirefoxStudies, DisableDefaultBrowserAgent."@,
        TelemetryId::Chrome => "MetricsReportingEnabled = 0 и отключение задач GoogleUpdateTask*."@,
        TelemetryId::Nvidia => "Служба NvTelemetryContainer и задачи NvTmRep / NvTmMon / NvNodeLauncher."@,
        TelemetryId::VisualStudio => "Customer Experience Improvement Program и Feedback для VS 2015–2022."@,
        TelemetryId::Windows => "Службы DiagTrack и dmwappushservice + политики AllowTelemetry = 0."@,
    }
}

/// What switching an application's telemetry touches.
pub fn telemetry_description(id: TelemetryId) -> (r: &'static str)
    ensures
        r@ == spec_telemetry_description(id),
{
    match id {
        TelemetryId::Office => "OfficeTelemetryAgent, ClientTelemetry и связанные задачи планировщика.",
        TelemetryId::Firefox => "Политики DisableTelemetry, DisableFirefoxStudies, DisableDefaultBrowserAgent.",
        TelemetryId::Chrome => "MetricsReportingEnabled = 0 и отключение задач GoogleUpdateTask*.",
        TelemetryId::Nvidia => "Служба NvTelemetryContainer и задачи NvTmRep / NvTmMon / NvNodeLauncher.",
        TelemetryId::VisualStudio => "Customer Experience Improvement Program и Feedback для VS 2015–2022.",
        TelemetryId::Windows => "Службы DiagTrack и dmwappushservice + политики AllowTelemetry = 0.",
    }
}

/// An entry as the page starts with it: status unknown, idle, no log.
pub open spec fn is_fresh_telemetry_item(item: TelemetryItem, id: TelemetryId) -> bool {
    &&& item.id == id
    &&& item.title@ == spec_telemetry_title(id)
    &&& item.description@ == spec_telemetry_description(id)
    &&& item.status == TelemetryStatus::Unknown
    &&& !item.busy
    &&& item.log is None
}

fn telemetry_item(id: TelemetryId) -> (r: TelemetryItem)
    ensures
        is_fresh_telemetry_item(r, id),
{
    TelemetryItem {
        id,
        title: telemetry_title(id).to_owned(),
        description: telemetry_description(id).to_owned(),
        status: TelemetryStatus::Unknown,
        busy: false,
        log: None,
    }
}

/// The entries of the telemetry page, one per application, in order.
pub fn telemetry_items() -> (r: Vec<TelemetryItem>)
    ensures
        r@.len() == all_telemetry_ids().len(),
        forall|k: int|
            0 <= k < r@.len() ==> is_fresh_telemetry_item(#[trigger] r@[k], all_telemetry_ids()[k]),
{
    let mut r: Vec<TelemetryItem> = Vec::new();
    r.push(telemetry_item(TelemetryId::Office));
    r.push(telemetry_item(TelemetryId::Firefox));
    r.push(telemetry_item(TelemetryId::Chrome));
    r.push(telemetry_item(TelemetryId::Nvidia));
    r.push(telemetry_item(TelemetryId::VisualStudio));
    r.push(telemetry_item(TelemetryId::Windows));
    r
}

/// Prints `office=`, `firefox=`, `chrome=`, `nvidia=`, `vs=` and `windows=`
/// lines, each `disabled` or `enabled`.
pub const TELEMETRY_STATUS_SCRIPT: &'static str = r#"
$ErrorActionPreference = 'SilentlyContinue'

function Get-Reg([string]$Path, [string]$Name) {
    try {
        if (Test-Path $Path) {
            return (Get-ItemProperty -Path $Path -Name $Name -ErrorAction Stop).$Name
        }
    } catch {}
    return $null
}

# Office
$office = $false
foreach ($v in @('14.0','15.0','16.0')) {
    if ((Get-Reg "HKCU:\Software\Policies\Microsoft\office\$v\osm" 'enablelogging') -eq 0) { $office = $true }
    if ((Get-Reg "HKCU:\Software\Policies\Microsoft\office\$v\osm" 'enableupload') -eq 0) { $office = $true }
}
if ((Get-Reg "HKCU:\Software\Policies\Microsoft\Office\Common\ClientTelemetry" 'DisableTelemetry') -eq 1) { $office = $true }
Write-Output ("office=" + $(if ($office) { 'disabled' } else { 'enabled' }))

# Firefox
$ff = ((Get-Reg "HKLM:\Software\Policies\Mozilla\Firefox" 'DisableTelemetry') -eq 1)
Write-Output ("firefox=" + $(if ($ff) { 'disabled' } else { 'enabled' }))

# Chrome
$ch = ((Get-Reg "HKLM:\Software\Policies\Google\Chrome" 'MetricsReportingEnabled') -eq 0)
Write-Output ("chrome=" + $(if ($ch) { 'disabled' } else { 'enabled' }))

# NVIDIA
$nv = $false
$svc = Get-Service -Name 'NvTelemetryContainer' -ErrorAction SilentlyContinue
if (-not $svc) { $nv = $true }
elseif ($svc.StartType -eq 'Disabled') { $nv = $true }
Write-Output ("nvidia=" + $(if ($nv) { 'disabled' } else { 'enabled' }))

# Visual Studio
$vs = $false
foreach ($v in @('14.0','15.0','16.0','17.0')) {
    if ((Get-Reg "HKCU:\Software\Microsoft\VSCommon\$v\SQM" 'OptIn') -eq 0) { $vs = $true }
}
if ((Get-Reg "HKLM:\SOFTWARE\Policies\Microsoft\VisualStudio\SQM" 'OptIn') -eq 0) { $vs = $true }
Write-Output ("vs=" + $(if ($vs) { 'disabled' } else { 'enabled' }))

# Windows
$w = $false
$diag = Get-Service -Name 'DiagTrack' -ErrorAction SilentlyContinue
if ($diag -and $diag.StartType -eq 'Disabled') { $w = $true }
if ((Get-Reg "HKLM:\SOFTWARE\Policies\Microsoft\Windows\DataCollection" 'AllowTelemetry') -eq 0) { $w = $true }
Write-Output ("windows=" + $(if ($w) { 'disabled' } else { 'enabled' }))
"#;

pub const OFFICE_DISABLE: &'static str = r#"
$ErrorActionPreference = 'Continue'
foreach ($v in @('14.0','15.0','16.0')) {
    $p = "HKCU:\Software\Policies\Microsoft\office\$v\osm"
    New-Item -Path $p -Force | Out-Null
    Set-ItemProperty -Path $p -Name 'enablelogging' -Value 0 -Type DWord -Force
    Set-ItemProperty -Path $p -Name 'enableupload' -Value 0 -Type DWord -Force
}
$ct = "HKCU:\Software\Policies\Microsoft\Office\Common\ClientTelemetry"
New-Item -Path $ct -Force | Out-Null
Set-ItemProperty -Path $ct -Name 'DisableTelemetry' -Value 1 -Type DWord -Force
foreach ($t in @(
    '\Microsoft\Office\OfficeTelemetryAgentLogOn2016',
    '\Microsoft\Office\OfficeTelemetryAgentFallBack2016',
    '\Microsoft\Office\Office Feature Updates'
)) {
    Disable-ScheduledTask -TaskName $t -ErrorAction SilentlyContinue | Out-Null
}
Write-Output 'Office telemetry: отключена.'
"#;

pub const OFFICE_ENABLE: &'static str = r#"
$ErrorActionPreference = 'Continue'
foreach ($v in @('14.0','15.0','16.0')) {
    Remove-Item -Path "HKCU:\Software\Policies\Microsoft\office\$v\osm" -Recurse -Force -ErrorAction SilentlyContinue
}
Remove-Item -Path "HKCU:\Software\Policies\Microsoft\Office\Common\ClientTelemetry" -Recurse -Force -ErrorAction SilentlyContinue
foreach ($t in @(
    '\Microsoft\Office\OfficeTelemetryAgentLogOn2016',
    '\Microsoft\Office\OfficeTelemetryAgentFallBack2016',
    '\Microsoft\Office\Office Feature Updates'
)) {
    Enable-ScheduledTask -TaskName $t -ErrorAction SilentlyContinue | Out-Null
}
Write-Output 'Office telemetry: включена.'
"#;

pub const FIREFOX_DISABLE: &'static str = r#"
$ErrorActionPreference = 'Continue'
$p = "HKLM:\Software\Policies\Mozilla\Firefox"
New-Item -Path $p -Force | Out-Null
Set-ItemProperty -Path $p -Name 'DisableTelemetry' -Value 1 -Type DWord -Force
Set-ItemProperty -Path $p -Name 'DisableFirefoxStudies' -Value 1 -Type DWord -Force
Set-ItemProperty -Path $p -Name 'DisableDefaultBrowserAgent' -Value 1 -Type DWord -Force
Write-Output 'Firefox telemetry: отключена.'
"#;

pub const FIREFOX_ENABLE: &'static str = r#"
$ErrorActionPreference = 'Continue'
$p = "HKLM:\Software\Policies\Mozilla\Firefox"
Remove-ItemProperty -Path $p -Name 'DisableTelemetry' -Force -ErrorAction SilentlyContinue
Remove-ItemProperty -Path $p -Name 'DisableFirefoxStudies' -Force -ErrorAction SilentlyContinue
Remove-ItemProperty -Path $p -Name 'DisableDefaultBrowserAgent' -Force -ErrorAction SilentlyContinue
Write-Output 'Firefox telemetry: включена.'
"#;

pub const CHROME_DISABLE: &'static str = r#"
$ErrorActionPreference = 'Continue'
$p = "HKLM:\Software\Policies\Google\Chrome"
New-Item -Path $p -Force | Out-Null
Set-ItemProperty -Path $p -Name 'MetricsReportingEnabled' -Value 0 -Type DWord -Force
Set-ItemProperty -Path $p -Name 'DefaultBrowserSettingEnabled' -Value 0 -Type DWord -Force
Get-ScheduledTask -TaskName 'GoogleUpdateTask*' -ErrorAction SilentlyContinue | ForEach-Object {
    Disable-ScheduledTask -TaskName $_.TaskName -ErrorAction SilentlyContinue | Out-Null
}
Write-Output 'Chrome telemetry: отключена.'
"#;

pub const CHROME_ENABLE: &'static str = r#"
$ErrorActionPreference = 'Continue'
$p = "HKLM:\Software\Policies\Google\Chrome"
Remove-ItemProperty -Path $p -Name 'MetricsReportingEnabled' -Force -ErrorAction SilentlyContinue
Remove-ItemProperty -Path $p -Name 'DefaultBrowserSettingEnabled' -Force -ErrorAction SilentlyContinue
Get-ScheduledTask -TaskName 'GoogleUpdateTask*' -ErrorAction SilentlyContinue | ForEach-Object {
    Enable-ScheduledTask -TaskName $_.TaskName -ErrorAction SilentlyContinue | Out-Null
}
Write-Output 'Chrome telemetry: включена.'
"#;

pub const NVIDIA_DISABLE: &'static str = r#"
$ErrorActionPreference = 'Continue'
Stop-Service -Name 'NvTelemetryContainer' -Force -ErrorAction SilentlyContinue
Set-Service -Name 'NvTelemetryContainer' -StartupType Disabled -ErrorAction SilentlyContinue
foreach ($pat in @('NvTmRep_CrashReport*','NvTmMon*','NvTmRep*','NvDriverUpdateCheckDaily_*','NvNodeLauncher_*')) {
    Get-ScheduledTask -TaskName $pat -ErrorAction SilentlyContinue | ForEach-Object {
        Disable-ScheduledTask -TaskName $_.TaskName -ErrorAction SilentlyContinue | Out-Null
    }
}
$p = "HKLM:\SOFTWARE\NVIDIA Corporation\NvControlPanel2\Client"
New-Item -Path $p -Force | Out-Null
Set-ItemProperty -Path $p -Name 'OptInOrOutPreference' -Value 0 -Type DWord -Force
Write-Output 'NVIDIA telemetry: отключена.'
"#;

pub const NVIDIA_ENABLE: &'static str = r#"
$ErrorActionPreference = 'Continue'
Set-Service -Name 'NvTelemetryContainer' -StartupType Automatic -ErrorAction SilentlyContinue
Start-Service -Name 'NvTelemetryContainer' -ErrorAction SilentlyContinue
foreach ($pat in @('NvTmRep_CrashReport*','NvTmMon*','NvTmRep*','NvDriverUpdateCheckDaily_*','NvNodeLauncher_*')) {
    Get-ScheduledTask -TaskName $pat -ErrorAction SilentlyContinue | ForEach-Object {
        Enable-ScheduledTask -TaskName $_.TaskName -ErrorAction SilentlyContinue | Out-Null
    }
}
Remove-ItemProperty -Path "HKLM:\SOFTWARE\NVIDIA Corporation\NvControlPanel2\Client" -Name 'OptInOrOutPreference' -Force -ErrorAction SilentlyContinue
Write-Output 'NVIDIA telemetry: включена.'
"#;

pub const VS_DISABLE: &'static str = r#"
$ErrorActionPreference = 'Continue'
foreach ($v in @('14.0','15.0','16.0','17.0')) {
    $p = "HKCU:\Software\Microsoft\VSCommon\$v\SQM"
    New-Item -Path $p -Force | Out-Null
    Set-ItemProperty -Path $p -Name 'OptIn' -Value 0 -Type DWord -Force
}
$p = "HKLM:\SOFTWARE\Policies\Microsoft\VisualStudio\SQM"
New-Item -Path $p -Force | Out-Null
Set-ItemProperty -Path $p -Name 'OptIn' -Value 0 -Type DWord -Force
$p = "HKLM:\SOFTWARE\Policies\Microsoft\VisualStudio\Feedback"
New-Item -Path $p -Force | Out-Null
Set-ItemProperty -Path $p -Name 'DisableFeedbackDialog' -Value 1 -Type DWord -Force
Set-ItemProperty -Path $p -Name 'DisableEmailInput' -Value 1 -Type DWord -Force
Set-ItemProperty -Path $p -Name 'DisableScreenshotCapture' -Value 1 -Type DWord -Force
Write-Output 'Visual Studio telemetry: отключена.'
"#;

pub const VS_ENABLE: &'static str = r#"
$ErrorActionPreference = 'Continue'
foreach ($v in @('14.0','15.0','16.0','17.0')) {
    Remove-ItemProperty -Path "HKCU:\Software\Microsoft\VSCommon\$v\SQM" -Name 'OptIn' -Force -ErrorAction SilentlyContinue
}
Remove-Item -Path "HKLM:\SOFTWARE\Policies\Microsoft\VisualStudio\SQM" -Recurse -Force -ErrorAction SilentlyContinue
Remove-Item -Path "HKLM:\SOFTWARE\Policies\Microsoft\VisualStudio\Feedback" -Recurse -Force -ErrorAction SilentlyContinue
Write-Output 'Visual Studio telemetry: включена.'
"#;

pub const WINDOWS_DISABLE: &'static str = r#"
$ErrorActionPreference = 'Continue'
Stop-Service -Name 'DiagTrack' -Force -ErrorAction SilentlyContinue
Set-Service -Name 'DiagTrack' -StartupType Disabled -ErrorAction SilentlyContinue
Stop-Service -Name 'dmwappushservice' -Force -ErrorAction SilentlyContinue
Set-Service -Name 'dmwappushservice' -StartupType Disabled -ErrorAction SilentlyContinue
$p = "HKLM:\SOFTWARE\Policies\Microsoft\Windows\DataCollection"
New-Item -Path $p -Force | Out-Null
Set-ItemProperty -Path $p -Name 'AllowTelemetry' -Value 0 -Type DWord -Force
$p = "HKLM:\SOFTWARE\Microsoft\Windows\CurrentVersion\Policies\DataCollection"
New-Item -Path $p -Force | Out-Null
Set-ItemProperty -Path $p -Name 'AllowTelemetry' -Value 0 -Type DWord -Force
Write-Output 'Windows telemetry: отключена.'
"#;

pub const WINDOWS_ENABLE: &'static str = r#"
$ErrorActionPreference = 'Continue'
Set-Service -Name 'DiagTrack' -StartupType Automatic -ErrorAction SilentlyContinue
Start-Service -Name 'DiagTrack' -ErrorAction SilentlyContinue
Set-Service -Name 'dmwappushservice' -StartupType Manual -ErrorAction SilentlyContinue
Remove-ItemProperty -Path "HKLM:\SOFTWARE\Policies\Microsoft\Windows\DataCollection" -Name 'AllowTelemetry' -Force -ErrorAction SilentlyContinue
Remove-ItemProperty -Path "HKLM:\SOFTWARE\Microsoft\Windows\CurrentVersion\Policies\DataCollection" -Name 'AllowTelemetry' -Force -ErrorAction SilentlyContinue
Write-Output 'Windows telemetry: включена.'
"#;

/// The script that switches an application's telemetry off (`disable`) or
/// back on.
pub open spec fn spec_telemetry_script(id: TelemetryId, disable: bool) -> Seq<char> {
    match id {
        TelemetryId::Office => if disable {
            OFFICE_DISABLE@
        } else {
            OFFICE_ENABLE@
        },
        TelemetryId::Firefox => if disable {
            FIREFOX_DISABLE@
        } else {
            FIREFOX_ENABLE@
        },
        TelemetryId::Chrome => if disable {
            CHROME_DISABLE@
        } else {
            CHROME_ENABLE@
        },
        TelemetryId::Nvidia => if disable {
            NVIDIA_DISABLE@
        } else {
            NVIDIA_ENABLE@
        },
        TelemetryId::VisualStudio => if disable {
            VS_DISABLE@
        } else {
            VS_ENABLE@
        },
        TelemetryId::Windows => if disable {
            WINDOWS_DISABLE@
        } else {
            WINDOWS_ENABLE@
        },
    }
}

pub fn telemetry_script(id: TelemetryId, disable: bool) -> (r: &'static str)
    ensures
        r@ == spec_telemetry_script(id, disable),
{
    match id {
        TelemetryId::Office => if disable {
            OFFICE_DISABLE
        } else {
            OFFICE_ENABLE
        },
        TelemetryId::Firefox => if disable {
            FIREFOX_DISABLE
        } else {
            FIREFOX_ENABLE
        },
        TelemetryId::Chrome => if disable {
            CHROME_DISABLE
        } else {
            CHROME_ENABLE
        },
        TelemetryId::Nvidia => if disable {
            NVIDIA_DISABLE
        } else {
            NVIDIA_ENABLE
        },
        TelemetryId::VisualStudio => if disable {
            VS_DISABLE
        } else {
            VS_ENABLE
        },
        TelemetryId::Windows => if disable {
            WINDOWS_DISABLE
        } else {
            WINDOWS_ENABLE
        },
    }
}

/// The status a report value stands for.
pub open spec fn spec_telemetry_status_of(v: Seq<char>) -> TelemetryStatus {
    if v == "disabled"@ {
        TelemetryStatus::Disabled
    } else if v == "enabled"@ {
        TelemetryStatus::Enabled
    } else {
        TelemetryStatus::Unknown
    }
}

/// One line of the status report: `key=value` with a known key adds that
/// application and its status; other lines are skipped.
pub open spec fn telemetry_step(
    acc: Seq<(TelemetryId, TelemetryStatus)>,
    raw: Seq<char>,
) -> Seq<(TelemetryId, TelemetryStatus)> {
    match split_once(trim(raw), '=') {
        None => acc,
        Some((k, v)) => match TelemetryId::spec_from_key(trim(k)) {
            Some(id) => acc.push((id, spec_telemetry_status_of(trim(v)))),
            None => acc,
        },
    }
}

pub open spec fn telemetry_lines(
    lines: Seq<Seq<char>>,
    acc: Seq<(TelemetryId, TelemetryStatus)>,
) -> Seq<(TelemetryId, TelemetryStatus)>
    decreases lines.len(),
{
    if lines.len() == 0 {
        acc
    } else {
        telemetry_lines(lines.drop_first(), telemetry_step(acc, lines[0]))
    }
}

pub open spec fn spec_parse_telemetry_status_output(out: Seq<char>) -> Seq<
    (TelemetryId, TelemetryStatus),
> {
    telemetry_lines(split(out, '\n'), Seq::empty())
}

/// Reads the report printed by `TELEMETRY_STATUS_SCRIPT`.
pub fn parse_telemetry_status_output(out: &str) -> (r: Vec<(TelemetryId, TelemetryStatus)>)
    ensures
        r@ == spec_parse_telemetry_status_output(out@),
{
    let v = chars_of(out);
    let lines = split_bounds(v.as_slice(), '\n');
    let ghost pieces = split(v@, '\n');
    let mut acc: Vec<(TelemetryId, TelemetryStatus)> = Vec::new();
    let mut k: usize = 0;
    proof {
        assert(pieces.skip(0) == pieces);
    }
    while k < lines.len()
        invariant
            pieces == split(v@, '\n'),
            lines@.len() == pieces.len(),
            forall|j: int|
                0 <= j < lines@.len() ==> (#[trigger] lines@[j]).0 <= lines@[j].1 <= v@.len()
                    && v@.subrange(lines@[j].0 as int, lines@[j].1 as int) == pieces[j],
            k <= lines@.len(),
            spec_parse_telemetry_status_output(out@) == telemetry_lines(
                pieces.skip(k as int),
                acc@,
            ),
            v@ == out@,
        decreases lines.len() - k,
    {
        let (lo, hi) = lines[k];
        proof {
            assert(pieces.skip(k as int)[0] == pieces[k as int]);
            assert(pieces.skip(k as int).drop_first() == pieces.skip(k + 1));
        }
        match kv_bounds(v.as_slice(), lo, hi) {
            Some((ka, kb, va, vb)) => {
                let key = string_of_range(v.as_slice(), ka, kb);
                match TelemetryId::from_key(key.as_str()) {
                    Some(id) => {
                        let value = string_of_range(v.as_slice(), va, vb);
                        let status = telemetry_status_of(value.as_str());
                        acc.push((id, status));
                    },
                    None => {},
                }
            },
            None => {},
        }
        k = k + 1;
    }
    acc
}

fn telemetry_status_of(v: &str) -> (r: TelemetryStatus)
    ensures
        r == spec_telemetry_status_of(v@),
{
    let c = chars_of(v);
    let n = c.len();
    proof {
        assert(c@.subrange(0, n as int) == v@);
    }
    if range_eq_str(c.as_slice(), 0, n, "disabled") {
        TelemetryStatus::Disabled
    } else if range_eq_str(c.as_slice(), 0, n, "enabled") {
        TelemetryStatus::Enabled
    } else {
        TelemetryStatus::Unknown
    }
}

} // verus!
