//! The Windows Update policies: the three settings the page offers, the
//! script that applies each, and how the status query is read.

use vstd::prelude::*;

use crate::text::{chars_of, contains, occurs_at, range_eq_str, trim, trim_bounds};
use crate::types::WindowsUpdateAction;

verus! {

/// Prints `disable`, `security` or `default`: the policy now in force.
pub const SCRIPT_QUERY: &'static str = r#"
$ErrorActionPreference = 'SilentlyContinue'
$ProgressPreference = 'SilentlyContinue'
[Console]::OutputEncoding = [System.Text.Encoding]::UTF8
$wuPath = 'HKLM:\SOFTWARE\Policies\Microsoft\Windows\WindowsUpdate'
$auPath = 'HKLM:\SOFTWARE\Policies\Microsoft\Windows\WindowsUpdate\AU'

# 1. Проверка служб — если wuauserv или UsoSvc отключены, обновления не работают
$wuService = Get-Service -Name wuauserv -ErrorAction SilentlyContinue
$usoService = Get-Service -Name UsoSvc -ErrorAction SilentlyContinue
if ($wuService -and $wuService.StartType -eq 'Disabled') {
    Write-Output 'disable'
    exit
}
if ($usoService -and $usoService.StartType -eq 'Disabled') {
    Write-Output 'disable'
    exit
}

# 2. Проверка реестра на NoAutoUpdate
$noAuto = (Get-ItemProperty -Path $auPath -Name 'NoAutoUpdate' -ErrorAction SilentlyContinue).NoAutoUpdate
if ($noAuto -eq 1) {
    Write-Output 'disable'
    exit
}

# 3. Проверка режима безопасности (отложенные обновления)
$featDays = (Get-ItemProperty -Path $wuPath -Name 'FeatureUpdatesMaxDaysBeforeDeferral' -ErrorAction SilentlyContinue).FeatureUpdatesMaxDaysBeforeDeferral
$secDays = (Get-ItemProperty -Path $wuPath -Name 'SecurityUpdatesMaxDaysBeforeDeferral' -ErrorAction SilentlyContinue).SecurityUpdatesMaxDaysBeforeDeferral
$noDrivers = (Get-ItemProperty -Path $wuPath -Name 'ExcludeWUDriversInQualityUpdate' -ErrorAction SilentlyContinue).ExcludeWUDriversInQualityUpdate

if ($featDays -eq 365 -and $secDays -eq 4 -and $noDrivers -eq 1) {
    Write-Output 'security'
    exit
}

# 4. Если ни политик, ни служба не тронуты — по умолчанию
Write-Output 'default'
"#;

/// Removes the update policies and restores the services' start-up types.
pub const SCRIPT_DEFAULT: &'static str = r#"
$ErrorActionPreference = 'Continue'
$ProgressPreference = 'SilentlyContinue'
[Console]::OutputEncoding = [System.Text.Encoding]::UTF8
$paths = @(
    'HKLM:\SOFTWARE\Policies\Microsoft\Windows\WindowsUpdate',
    'HKLM:\SOFTWARE\Policies\Microsoft\Windows\WindowsUpdate\AU'
)
foreach ($path in $paths) {
    if (Test-Path $path) {
        Remove-Item -Path $path -Recurse -Force -ErrorAction SilentlyContinue
    }
}
Set-Service -Name wuauserv -StartupType Automatic -ErrorAction SilentlyContinue
Start-Service -Name wuauserv -ErrorAction SilentlyContinue
Set-Service -Name UsoSvc -StartupType Automatic -ErrorAction SilentlyContinue
Start-Service -Name UsoSvc -ErrorAction SilentlyContinue
Set-Service -Name WaaSMedicSvc -StartupType Manual -ErrorAction SilentlyContinue
Write-Output 'Настройки обновлений Windows сброшены на стандартные.'
"#;

/// Defers feature updates, keeps security updates and leaves out drivers.
pub const SCRIPT_SECURITY: &'static str = r#"
$ErrorActionPreference = 'Continue'
$ProgressPreference = 'SilentlyContinue'
[Console]::OutputEncoding = [System.Text.Encoding]::UTF8
$paths = @(
    'HKLM:\SOFTWARE\Policies\Microsoft\Windows\WindowsUpdate',
    'HKLM:\SOFTWARE\Policies\Microsoft\Windows\WindowsUpdate\AU'
)
foreach ($path in $paths) {
    if (-not (Test-Path $path)) {
        $null = New-Item -Path $path -Force -ErrorAction SilentlyContinue
    }
}
Set-ItemProperty -Path 'HKLM:\SOFTWARE\Policies\Microsoft\Windows\WindowsUpdate' -Name 'FeatureUpdatesMaxDaysBeforeDeferral' -Value 365 -Type DWord -ErrorAction SilentlyContinue
Set-ItemProperty -Path 'HKLM:\SOFTWARE\Policies\Microsoft\Windows\WindowsUpdate' -Name 'SecurityUpdatesMaxDaysBeforeDeferral' -Value 4 -Type DWord -ErrorAction SilentlyContinue
Set-ItemProperty -Path 'HKLM:\SOFTWARE\Policies\Microsoft\Windows\WindowsUpdate' -Name 'ExcludeWUDriversInQualityUpdate' -Value 1 -Type DWord -ErrorAction SilentlyContinue
Set-ItemProperty -Path 'HKLM:\SOFTWARE\Policies\Microsoft\Windows\WindowsUpdate\AU' -Name 'NoAutoUpdate' -Value 0 -Type DWord -ErrorAction SilentlyContinue
Set-ItemProperty -Path 'HKLM:\SOFTWARE\Policies\Microsoft\Windows\WindowsUpdate\AU' -Name 'AUOptions' -Value 4 -Type DWord -ErrorAction SilentlyContinue
Set-Service -Name wuauserv -StartupType Automatic -ErrorAction SilentlyContinue
Start-Service -Name wuauserv -ErrorAction SilentlyContinue
Set-Service -Name UsoSvc -StartupType Automatic -ErrorAction SilentlyContinue
Start-Service -Name UsoSvc -ErrorAction SilentlyContinue
Set-Service -Name WaaSMedicSvc -StartupType Manual -ErrorAction SilentlyContinue
Write-Output 'Настройки безопасности обновлений применены.'
"#;

/// Switches updates off through policy and the update services.
pub const SCRIPT_DISABLE: &'static str = r#"
$ErrorActionPreference = 'Continue'
$ProgressPreference = 'SilentlyContinue'
[Console]::OutputEncoding = [System.Text.Encoding]::UTF8
$paths = @(
    'HKLM:\SOFTWARE\Policies\Microsoft\Windows\WindowsUpdate',
    'HKLM:\SOFTWARE\Policies\Microsoft\Windows\WindowsUpdate\AU'
)
foreach ($path in $paths) {
    if (-not (Test-Path $path)) {
        $null = New-Item -Path $path -Force -ErrorAction SilentlyContinue
    }
}
Set-ItemProperty -Path 'HKLM:\SOFTWARE\Policies\Microsoft\Windows\WindowsUpdate\AU' -Name 'NoAutoUpdate' -Value 1 -Type DWord -ErrorAction SilentlyContinue
Set-ItemProperty -Path 'HKLM:\SOFTWARE\Policies\Microsoft\Windows\WindowsUpdate' -Name 'DisableWindowsUpdateAccess' -Value 1 -Type DWord -ErrorAction SilentlyContinue
Set-Service -Name wuauserv -StartupType Disabled -ErrorAction SilentlyContinue
Stop-Service -Name wuauserv -Force -ErrorAction SilentlyContinue
Set-Service -Name UsoSvc -StartupType Disabled -ErrorAction SilentlyContinue
Stop-Service -Name UsoSvc -Force -ErrorAction SilentlyContinue
Set-Service -Name WaaSMedicSvc -StartupType Disabled -ErrorAction SilentlyContinue
Stop-Service -Name WaaSMedicSvc -Force -ErrorAction SilentlyContinue
Write-Output 'Все обновления Windows отключены.'
"#;

pub open spec fn spec_script_for(action: WindowsUpdateAction) -> Seq<char> {
    match action {
        WindowsUpdateAction::Default => SCRIPT_DEFAULT@,
        WindowsUpdateAction::Security => SCRIPT_SECURITY@,
        WindowsUpdateAction::Disable => SCRIPT_DISABLE@,
    }
}

/// Each policy's script does what the policy says: the default one
/// removes the update policies and keeps the update service starting
/// automatically, the security one defers security updates by at most four
/// days and also keeps the service starting automatically, and the one that
/// switches updates off sets `NoAutoUpdate` and disables the service.
#[verifier::spinoff_prover]
pub proof fn lemma_script_for_policy(action: WindowsUpdateAction)
    ensures
        match action {
            WindowsUpdateAction::Default => {
                &&& contains(spec_script_for(action), "Remove-Item -Path $path -Recurse"@)
                &&& contains(
                    spec_script_for(action),
                    "Set-Service -Name wuauserv -StartupType Automatic"@,
                )
            },
            WindowsUpdateAction::Security => {
                &&& contains(
                    spec_script_for(action),
                    "-Name 'SecurityUpdatesMaxDaysBeforeDeferral' -Value 4"@,
                )
                &&& contains(
                    spec_script_for(action),
                    "Set-Service -Name wuauserv -StartupType Automatic"@,
                )
            },
            WindowsUpdateAction::Disable => {
                &&& contains(spec_script_for(action), "-Name 'NoAutoUpdate' -Value 1"@)
                &&& contains(
                    spec_script_for(action),
                    "Set-Service -Name wuauserv -StartupType Disabled"@,
                )
            },
        },
{
    reveal_strlit("Remove-Item -Path $path -Recurse");
    reveal_strlit("Set-Service -Name wuauserv -StartupType Automatic");
    reveal_strlit("-Name 'SecurityUpdatesMaxDaysBeforeDeferral' -Value 4");
    reveal_strlit("-Name 'NoAutoUpdate' -Value 1");
    reveal_strlit("Set-Service -Name wuauserv -StartupType Disabled");
    let s = spec_script_for(action);
    match action {
        WindowsUpdateAction::Default => {
            reveal_strlit(r#"
$ErrorActionPreference = 'Continue'
$ProgressPreference = 'SilentlyContinue'
[Console]::OutputEncoding = [System.Text.Encoding]::UTF8
$paths = @(
    'HKLM:\SOFTWARE\Policies\Microsoft\Windows\WindowsUpdate',
    'HKLM:\SOFTWARE\Policies\Microsoft\Windows\WindowsUpdate\AU'
)
foreach ($path in $paths) {
    if (Test-Path $path) {
        Remove-Item -Path $path -Recurse -Force -ErrorAction SilentlyContinue
    }
}
Set-Service -Name wuauserv -StartupType Automatic -ErrorAction SilentlyContinue
Start-Service -Name wuauserv -ErrorAction SilentlyContinue
Set-Service -Name UsoSvc -StartupType Automatic -ErrorAction SilentlyContinue
Start-Service -Name UsoSvc -ErrorAction SilentlyContinue
Set-Service -Name WaaSMedicSvc -StartupType Manual -ErrorAction SilentlyContinue
Write-Output 'Настройки обновлений Windows сброшены на стандартные.'
"#);
            assert(s.subrange(340, 372) =~= "Remove-Item -Path $path -Recurse"@);
            assert(occurs_at(s, "Remove-Item -Path $path -Recurse"@, 340));
            assert(s.subrange(418, 467) =~= "Set-Service -Name wuauserv -StartupType Automatic"@);
            assert(occurs_at(s, "Set-Service -Name wuauserv -StartupType Automatic"@, 418));
        },
        WindowsUpdateAction::Security => {
            reveal_strlit(r#"
$ErrorActionPreference = 'Continue'
$ProgressPreference = 'SilentlyContinue'
[Console]::OutputEncoding = [System.Text.Encoding]::UTF8
$paths = @(
    'HKLM:\SOFTWARE\Policies\Microsoft\Windows\WindowsUpdate',
    'HKLM:\SOFTWARE\Policies\Microsoft\Windows\WindowsUpdate\AU'
)
foreach ($path in $paths) {
    if (-not (Test-Path $path)) {
        $null = New-Item -Path $path -Force -ErrorAction SilentlyContinue
    }
}
Set-ItemProperty -Path 'HKLM:\SOFTWARE\Policies\Microsoft\Windows\WindowsUpdate' -Name 'FeatureUpdatesMaxDaysBeforeDeferral' -Value 365 -Type DWord -ErrorAction SilentlyContinue
Set-ItemProperty -Path 'HKLM:\SOFTWARE\Policies\Microsoft\Windows\WindowsUpdate' -Name 'SecurityUpdatesMaxDaysBeforeDeferral' -Value 4 -Type DWord -ErrorAction SilentlyContinue
Set-ItemProperty -Path 'HKLM:\SOFTWARE\Policies\Microsoft\Windows\WindowsUpdate' -Name 'ExcludeWUDriversInQualityUpdate' -Value 1 -Type DWord -ErrorAction SilentlyContinue
Set-ItemProperty -Path 'HKLM:\SOFTWARE\Policies\Microsoft\Windows\WindowsUpdate\AU' -Name 'NoAutoUpdate' -Value 0 -Type DWord -ErrorAction SilentlyContinue
Set-ItemProperty -Path 'HKLM:\SOFTWARE\Policies\Microsoft\Windows\WindowsUpdate\AU' -Name 'AUOptions' -Value 4 -Type DWord -ErrorAction SilentlyContinue
Set-Service -Name wuauserv -StartupType Automatic -ErrorAction SilentlyContinue
Start-Service -Name wuauserv -ErrorAction SilentlyContinue
Set-Service -Name UsoSvc -StartupType Automatic -ErrorAction SilentlyContinue
Start-Service -Name UsoSvc -ErrorAction SilentlyContinue
Set-Service -Name WaaSMedicSvc -StartupType Manual -ErrorAction SilentlyContinue
Write-Output 'Настройки безопасности обновлений применены.'
"#);
            assert(s.subrange(680, 733) =~= "-Name 'SecurityUpdatesMaxDaysBeforeDeferral' -Value 4"@);
            assert(occurs_at(s, "-Name 'SecurityUpdatesMaxDaysBeforeDeferral' -Value 4"@, 680));
            assert(s.subrange(1257, 1306) =~= "Set-Service -Name wuauserv -StartupType Automatic"@);
            assert(occurs_at(s, "Set-Service -Name wuauserv -StartupType Automatic"@, 1257));
        },
        WindowsUpdateAction::Disable => {
            reveal_strlit(r#"
$ErrorActionPreference = 'Continue'
$ProgressPreference = 'SilentlyContinue'
[Console]::OutputEncoding = [System.Text.Encoding]::UTF8
$paths = @(
    'HKLM:\SOFTWARE\Policies\Microsoft\Windows\WindowsUpdate',
    'HKLM:\SOFTWARE\Policies\Microsoft\Windows\WindowsUpdate\AU'
)
foreach ($path in $paths) {
    if (-not (Test-Path $path)) {
        $null = New-Item -Path $path -Force -ErrorAction SilentlyContinue
    }
}
Set-ItemProperty -Path 'HKLM:\SOFTWARE\Policies\Microsoft\Windows\WindowsUpdate\AU' -Name 'NoAutoUpdate' -Value 1 -Type DWord -ErrorAction SilentlyContinue
Set-ItemProperty -Path 'HKLM:\SOFTWARE\Policies\Microsoft\Windows\WindowsUpdate' -Name 'DisableWindowsUpdateAccess' -Value 1 -Type DWord -ErrorAction SilentlyContinue
Set-Service -Name wuauserv -StartupType Disabled -ErrorAction SilentlyContinue
Stop-Service -Name wuauserv -Force -ErrorAction SilentlyContinue
Set-Service -Name UsoSvc -StartupType Disabled -ErrorAction SilentlyContinue
Stop-Service -Name UsoSvc -Force -ErrorAction SilentlyContinue
Set-Service -Name WaaSMedicSvc -StartupType Disabled -ErrorAction SilentlyContinue
Stop-Service -Name WaaSMedicSvc -Force -ErrorAction SilentlyContinue
Write-Output 'Все обновления Windows отключены.'
"#);
            assert(s.subrange(505, 534) =~= "-Name 'NoAutoUpdate' -Value 1"@);
            assert(occurs_at(s, "-Name 'NoAutoUpdate' -Value 1"@, 505));
            assert(s.subrange(744, 792) =~= "Set-Service -Name wuauserv -StartupType Disabled"@);
            assert(occurs_at(s, "Set-Service -Name wuauserv -StartupType Disabled"@, 744));
        },
    }
}

/// Different policies get different scripts.
pub proof fn lemma_script_for_injective(a: WindowsUpdateAction, b: WindowsUpdateAction)
    requires
        a != b,
    ensures
        spec_script_for(a) != spec_script_for(b),
{
    reveal_strlit(r#"
$ErrorActionPreference = 'Continue'
$ProgressPreference = 'SilentlyContinue'
[Console]::OutputEncoding = [System.Text.Encoding]::UTF8
$paths = @(
    'HKLM:\SOFTWARE\Policies\Microsoft\Windows\WindowsUpdate',
    'HKLM:\SOFTWARE\Policies\Microsoft\Windows\WindowsUpdate\AU'
)
foreach ($path in $paths) {
    if (Test-Path $path) {
        Remove-Item -Path $path -Recurse -Force -ErrorAction SilentlyContinue
    }
}
Set-Service -Name wuauserv -StartupType Automatic -ErrorAction SilentlyContinue
Start-Service -Name wuauserv -ErrorAction SilentlyContinue
Set-Service -Name UsoSvc -StartupType Automatic -ErrorAction SilentlyContinue
Start-Service -Name UsoSvc -ErrorAction SilentlyContinue
Set-Service -Name WaaSMedicSvc -StartupType Manual -ErrorAction SilentlyContinue
Write-Output 'Настройки обновлений Windows сброшены на стандартные.'
"#);
    reveal_strlit(r#"
$ErrorActionPreference = 'Continue'
$ProgressPreference = 'SilentlyContinue'
[Console]::OutputEncoding = [System.Text.Encoding]::UTF8
$paths = @(
    'HKLM:\SOFTWARE\Policies\Microsoft\Windows\WindowsUpdate',
    'HKLM:\SOFTWARE\Policies\Microsoft\Windows\WindowsUpdate\AU'
)
foreach ($path in $paths) {
    if (-not (Test-Path $path)) {
        $null = New-Item -Path $path -Force -ErrorAction SilentlyContinue
    }
}
Set-ItemProperty -Path 'HKLM:\SOFTWARE\Policies\Microsoft\Windows\WindowsUpdate' -Name 'FeatureUpdatesMaxDaysBeforeDeferral' -Value 365 -Type DWord -ErrorAction SilentlyContinue
Set-ItemProperty -Path 'HKLM:\SOFTWARE\Policies\Microsoft\Windows\WindowsUpdate' -Name 'SecurityUpdatesMaxDaysBeforeDeferral' -Value 4 -Type DWord -ErrorAction SilentlyContinue
Set-ItemProperty -Path 'HKLM:\SOFTWARE\Policies\Microsoft\Windows\WindowsUpdate' -Name 'ExcludeWUDriversInQualityUpdate' -Value 1 -Type DWord -ErrorAction SilentlyContinue
Set-ItemProperty -Path 'HKLM:\SOFTWARE\Policies\Microsoft\Windows\WindowsUpdate\AU' -Name 'NoAutoUpdate' -Value 0 -Type DWord -ErrorAction SilentlyContinue
Set-ItemProperty -Path 'HKLM:\SOFTWARE\Policies\Microsoft\Windows\WindowsUpdate\AU' -Name 'AUOptions' -Value 4 -Type DWord -ErrorAction SilentlyContinue
Set-Service -Name wuauserv -StartupType Automatic -ErrorAction SilentlyContinue
Start-Service -Name wuauserv -ErrorAction SilentlyContinue
Set-Service -Name UsoSvc -StartupType Automatic -ErrorAction SilentlyContinue
Start-Service -Name UsoSvc -ErrorAction SilentlyContinue
Set-Service -Name WaaSMedicSvc -StartupType Manual -ErrorAction SilentlyContinue
Write-Output 'Настройки безопасности обновлений применены.'
"#);
    reveal_strlit(r#"
$ErrorActionPreference = 'Continue'
$ProgressPreference = 'SilentlyContinue'
[Console]::OutputEncoding = [System.Text.Encoding]::UTF8
$paths = @(
    'HKLM:\SOFTWARE\Policies\Microsoft\Windows\WindowsUpdate',
    'HKLM:\SOFTWARE\Policies\Microsoft\Windows\WindowsUpdate\AU'
)
foreach ($path in $paths) {
    if (-not (Test-Path $path)) {
        $null = New-Item -Path $path -Force -ErrorAction SilentlyContinue
    }
}
Set-ItemProperty -Path 'HKLM:\SOFTWARE\Policies\Microsoft\Windows\WindowsUpdate\AU' -Name 'NoAutoUpdate' -Value 1 -Type DWord -ErrorAction SilentlyContinue
Set-ItemProperty -Path 'HKLM:\SOFTWARE\Policies\Microsoft\Windows\WindowsUpdate' -Name 'DisableWindowsUpdateAccess' -Value 1 -Type DWord -ErrorAction SilentlyContinue
Set-Service -Name wuauserv -StartupType Disabled -ErrorAction SilentlyContinue
Stop-Service -Name wuauserv -Force -ErrorAction SilentlyContinue
Set-Service -Name UsoSvc -StartupType Disabled -ErrorAction SilentlyContinue
Stop-Service -Name UsoSvc -Force -ErrorAction SilentlyContinue
Set-Service -Name WaaSMedicSvc -StartupType Disabled -ErrorAction SilentlyContinue
Stop-Service -Name WaaSMedicSvc -Force -ErrorAction SilentlyContinue
Write-Output 'Все обновления Windows отключены.'
"#);
    assert(SCRIPT_DEFAULT@.len() == 842);
    assert(SCRIPT_SECURITY@.len() == 1672);
    assert(SCRIPT_DISABLE@.len() == 1229);
}

/// The script that applies a policy.
pub fn script_for(action: WindowsUpdateAction) -> (r: &'static str)
    ensures
        r@ == spec_script_for(action),
{
    match action {
        WindowsUpdateAction::Default => SCRIPT_DEFAULT,
        WindowsUpdateAction::Security => SCRIPT_SECURITY,
        WindowsUpdateAction::Disable => SCRIPT_DISABLE,
    }
}

/// The policies in the order the page offers them.
pub fn windows_update_actions() -> (r: Vec<WindowsUpdateAction>)
    ensures
        r@ == seq![
            WindowsUpdateAction::Default,
            WindowsUpdateAction::Security,
            WindowsUpdateAction::Disable,
        ],
{
    let mut r: Vec<WindowsUpdateAction> = Vec::new();
    r.push(WindowsUpdateAction::Default);
    r.push(WindowsUpdateAction::Security);
    r.push(WindowsUpdateAction::Disable);
    r
}

/// The policy the status query reports: its trimmed output `disable` or
/// `security`, and the default for anything else.
pub open spec fn spec_windows_update_status_of(out: Seq<char>) -> WindowsUpdateAction {
    if trim(out) == "disable"@ {
        WindowsUpdateAction::Disable
    } else if trim(out) == "security"@ {
        WindowsUpdateAction::Security
    } else {
        WindowsUpdateAction::Default
    }
}

/// Reads the output of `SCRIPT_QUERY`.
pub fn windows_update_status_of(out: &str) -> (r: WindowsUpdateAction)
    ensures
        r == spec_windows_update_status_of(out@),
{
    let v = chars_of(out);
    proof {
        assert(v@.subrange(0, v@.len() as int) == v@);
    }
    let (a, b) = trim_bounds(v.as_slice(), 0, v.len());
    if range_eq_str(v.as_slice(), a, b, "disable") {
        WindowsUpdateAction::Disable
    } else if range_eq_str(v.as_slice(), a, b, "security") {
        WindowsUpdateAction::Security
    } else {
        WindowsUpdateAction::Default
    }
}

} // verus!
