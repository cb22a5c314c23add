//! The services page: the Windows services it covers, the scripts that
//! switch them off and on, and how the status report is read.

use vstd::prelude::*;

use crate::text::{
    chars_of, kv_bounds, lemma_split_nonempty, range_eq_str, split, split_bounds, split_bounds_range,
    split_once, string_of_range, trim,
};
use crate::types::{ServiceId, ServiceItem, ServiceStatus};

verus! {

/// The services in the order the page lists them.
pub open spec fn all_service_ids() -> Seq<ServiceId> {
    seq![
        ServiceId::DiagTrack,
        ServiceId::Dmwappushservice,
        ServiceId::WSearch,
        ServiceId::Dosvc,
        ServiceId::RetailDemo,
        ServiceId::XblGameSave,
        ServiceId::DcpSvc,
        ServiceId::PcaSvc,
        ServiceId::Bits,
    ]
}

pub open spec fn spec_service_title(id: ServiceId) -> Seq<char> {
    match id {
        ServiceId::DiagTrack => "Диагностическое отслеживание (DiagTrack)"@,
        ServiceId::Dmwappushservice => "WAP-PUSH сообщения (dmwappushservice)"@,
        ServiceId::WSearch => "Поиск Windows (WSearch)"@,
        ServiceId::Dosvc => "Оптимизация доставки (DoSvc)"@,
        ServiceId::RetailDemo => "Розничная демонстрация (RetailDemo)"@,
        ServiceId::XblGameSave => "Xbox Game Save (XblGameSave)"@,
        ServiceId::DcpSvc => "Профилактика компонентов (DcpSvc)"@,
        ServiceId::PcaSvc => "Проект совместимости программ (PcaSvc)"@,
        ServiceId::Bits => "Фоновый интеллектуальный сервис передачи (BITS)"@,
    }
}

/// The name a service is listed under.
pub fn service_title(id: ServiceId) -> (r: &'static str)
    ensures
        r@ == spec_service_title(id),
{
    match id {
        ServiceId::DiagTrack => "Диагностическое отслеживание (DiagTrack)",
        ServiceId::Dmwappushservice => "WAP-PUSH сообщения (dmwappushservice)",
        ServiceId::WSearch => "Поиск Windows (WSearch)",
        ServiceId::Dosvc => "Оптимизация доставки (DoSvc)",
        ServiceId::RetailDemo => "Розничная демонстрация (RetailDemo)",
        ServiceId::XblGameSave => "Xbox Game Save (XblGameSave)",
        ServiceId::DcpSvc => "Профилактика компонентов (DcpSvc)",
        ServiceId::PcaSvc => "Проект совместимости программ (PcaSvc)",
        ServiceId::Bits => "Фоновый интеллектуальный сервис передачи (BITS)",
    }
}

pub open spec fn spec_service_description(id: ServiceId) -> Seq<char> {
    match id {
        ServiceId::DiagTrack => "Сбор телеметрии Windows. Отключение безопасно для большинства пользователей."@,
        ServiceId::Dmwappushservice => "Сервис для push-уведомлений. Может быть отключён для повышения приватности."@,
        ServiceId::WSearch => "Индексация файлов для поиска. Отключение замедлит поиск, но снизит нагрузку."@,
        ServiceId::Dosvc => "Delivery Optimization — обновления от других ПК в локальной сети."@,
        ServiceId::RetailDemo => "Служба демонстрационного режима. Отключение безопасно."@,
        ServiceId::XblGameSave => "Сохранение игровых данных Xbox. Можно отключить, если не используете Xbox."@,
        ServiceId::DcpSvc => "Планировщик обслуживания Windows. Отключение снизит фоновую нагрузку."@,
        ServiceId::PcaSvc => "Program Compatibility Assistant — отслеживает проблемы совместимости. Отключение безопасно."@,
        ServiceId::Bits => "Служба для фоновой загрузки и обновлений. Отключение может прервать Windows Update и другие фоновые загрузки."@,
    }
}

/// What a service does and what switching it off costs.
pub fn service_description(id: ServiceId) -> (r: &'static str)
    ensures
        r@ == spec_service_description(id),
{
    match id {
        ServiceId::DiagTrack => "Сбор телеметрии Windows. Отключение безопасно для большинства пользователей.",
        ServiceId::Dmwappushservice => "Сервис для push-уведомлений. Может быть отключён для повышения приватности.",
        ServiceId::WSearch => "Индексация файлов для поиска. Отключение замедлит поиск, но снизит нагрузку.",
        ServiceId::Dosvc => "Delivery Optimization — обновления от других ПК в локальной сети.",
        ServiceId::RetailDemo => "Служба демонстрационного режима. Отключение безопасно.",
        ServiceId::XblGameSave => "Сохранение игровых данных Xbox. Можно отключить, если не используете Xbox.",
        ServiceId::DcpSvc => "Планировщик обслуживания Windows. Отключение снизит фоновую нагрузку.",
        ServiceId::PcaSvc => "Program Compatibility Assistant — отслеживает проблемы совместимости. Отключение безопасно.",
        ServiceId::Bits => "Служба для фоновой загрузки и обновлений. Отключение может прервать Windows Update и другие фоновые загрузки.",
    }
}

/// An entry as the page starts with it: status unknown, idle, no log.
pub open spec fn is_fresh_service_item(item: ServiceItem, id: ServiceId) -> bool {
    &&& item.id == id
    &&& item.title@ == spec_service_title(id)
    &&& item.description@ == spec_service_description(id)
    &&& item.status == ServiceStatus::Unknown
    &&& !item.busy
    &&& item.log is None
}

fn service_item(id: ServiceId) -> (r: ServiceItem)
    ensures
        is_fresh_service_item(r, id),
{
    ServiceItem {
        id,
        title: service_title(id).to_owned(),
        description: service_description(id).to_owned(),
        status: ServiceStatus::Unknown,
        busy: false,
        log: None,
    }
}

/// The entries of the services page, one per service, in order.
pub fn service_items() -> (r: Vec<ServiceItem>)
    ensures
        r@.len() == all_service_ids().len(),
        forall|k: int|
            0 <= k < r@.len() ==> is_fresh_service_item(#[trigger] r@[k], all_service_ids()[k]),
{
    let mut r: Vec<ServiceItem> = Vec::new();
    r.push(service_item(ServiceId::DiagTrack));
    r.push(service_item(ServiceId::Dmwappushservice));
    r.push(service_item(ServiceId::WSearch));
    r.push(service_item(ServiceId::Dosvc));
    r.push(service_item(ServiceId::RetailDemo));
    r.push(service_item(ServiceId::XblGameSave));
    r.push(service_item(ServiceId::DcpSvc));
    r.push(service_item(ServiceId::PcaSvc));
    r.push(service_item(ServiceId::Bits));
    r
}

pub const DIAGTRACK_DISABLE: &'static str = r#"
$ErrorActionPreference = 'Continue'
Stop-Service -Name 'DiagTrack' -Force -ErrorAction SilentlyContinue
Set-Service -Name 'DiagTrack' -StartupType Disabled -ErrorAction SilentlyContinue
Write-Output 'DiagTrack отключена.'
"#;

pub const DIAGTRACK_ENABLE: &'static str = r#"
$ErrorActionPreference = 'Continue'
Set-Service -Name 'DiagTrack' -StartupType Automatic -ErrorAction SilentlyContinue
Start-Service -Name 'DiagTrack' -ErrorAction SilentlyContinue
Write-Output 'DiagTrack включена.'
"#;

pub const DMWAPPUSH_DISABLE: &'static str = r#"
$ErrorActionPreference = 'Continue'
Stop-Service -Name 'dmwappushservice' -Force -ErrorAction SilentlyContinue
Set-Service -Name 'dmwappushservice' -StartupType Disabled -ErrorAction SilentlyContinue
Write-Output 'dmwappushservice отключена.'
"#;

pub const DMWAPPUSH_ENABLE: &'static str = r#"
$ErrorActionPreference = 'Continue'
Set-Service -Name 'dmwappushservice' -StartupType Manual -ErrorAction SilentlyContinue
Write-Output 'dmwappushservice включена.'
"#;

pub const WSEARCH_DISABLE: &'static str = r#"
$ErrorActionPreference = 'Continue'
Stop-Service -Name 'WSearch' -Force -ErrorAction SilentlyContinue
Set-Service -Name 'WSearch' -StartupType Disabled -ErrorAction SilentlyContinue
Write-Output 'WSearch отключена.'
"#;

pub const WSEARCH_ENABLE: &'static str = r#"
$ErrorActionPreference = 'Continue'
Set-Service -Name 'WSearch' -StartupType Automatic -ErrorAction SilentlyContinue
Start-Service -Name 'WSearch' -ErrorAction SilentlyContinue
Write-Output 'WSearch включена.'
"#;

pub const DOSVC_DISABLE: &'static str = r#"
$ErrorActionPreference = 'Continue'
Stop-Service -Name 'DoSvc' -Force -ErrorAction SilentlyContinue
Set-Service -Name 'DoSvc' -StartupType Disabled -ErrorAction SilentlyContinue
Write-Output 'DoSvc отключена.'
"#;

pub const DOSVC_ENABLE: &'static str = r#"
$ErrorActionPreference = 'Continue'
Set-Service -Name 'DoSvc' -StartupType Manual -ErrorAction SilentlyContinue
Start-Service -Name 'DoSvc' -ErrorAction SilentlyContinue
Write-Output 'DoSvc включена.'
"#;

pub const RETAILDEMO_DISABLE: &'static str = r#"
$ErrorActionPreference = 'Continue'
Stop-Service -Name 'RetailDemo' -Force -ErrorAction SilentlyContinue
Set-Service -Name 'RetailDemo' -StartupType Disabled -ErrorAction SilentlyContinue
Write-Output 'RetailDemo отключена.'
"#;

pub const RETAILDEMO_ENABLE: &'static str = r#"
$ErrorActionPreference = 'Continue'
Set-Service -Name 'RetailDemo' -StartupType Manual -ErrorAction SilentlyContinue
Write-Output 'RetailDemo включена.'
"#;

pub const XBLGAMESAVE_DISABLE: &'static str = r#"
$ErrorActionPreference = 'Continue'
Stop-Service -Name 'XblGameSave' -Force -ErrorAction SilentlyContinue
Set-Service -Name 'XblGameSave' -StartupType Disabled -ErrorAction SilentlyContinue
Write-Output 'XblGameSave отключена.'
"#;

pub const XBLGAMESAVE_ENABLE: &'static str = r#"
$ErrorActionPreference = 'Continue'
Set-Service -Name 'XblGameSave' -StartupType Manual -ErrorAction SilentlyContinue
Start-Service -Name 'XblGameSave' -ErrorAction SilentlyContinue
Write-Output 'XblGameSave включена.'
"#;

pub const DCPSVC_DISABLE: &'static str = r#"
$ErrorActionPreference = 'Continue'
Stop-Service -Name 'DcpSvc' -Force -ErrorAction SilentlyContinue
Set-Service -Name 'DcpSvc' -StartupType Disabled -ErrorAction SilentlyContinue
Write-Output 'DcpSvc отключена.'
"#;

pub const DCPSVC_ENABLE: &'static str = r#"
$ErrorActionPreference = 'Continue'
Set-Service -Name 'DcpSvc' -StartupType Manual -ErrorAction SilentlyContinue
Write-Output 'DcpSvc включена.'
"#;

pub const PCASVC_DISABLE: &'static str = r#"
$ErrorActionPreference = 'Continue'
Stop-Service -Name 'PcaSvc' -Force -ErrorAction SilentlyContinue
Set-Service -Name 'PcaSvc' -StartupType Disabled -ErrorAction SilentlyContinue
Write-Output 'PcaSvc отключена.'
"#;

pub const PCASVC_ENABLE: &'static str = r#"
$ErrorActionPreference = 'Continue'
Set-Service -Name 'PcaSvc' -StartupType Manual -ErrorAction SilentlyContinue
Write-Output 'PcaSvc включена.'
"#;

pub const BITS_DISABLE: &'static str = r#"
$ErrorActionPreference = 'Continue'
Stop-Service -Name 'BITS' -Force -ErrorAction SilentlyContinue
Set-Service -Name 'BITS' -StartupType Disabled -ErrorAction SilentlyContinue
Write-Output 'BITS отключена.'
"#;

pub const BITS_ENABLE: &'static str = r#"
$ErrorActionPreference = 'Continue'
Set-Service -Name 'BITS' -StartupType Manual -ErrorAction SilentlyContinue
Start-Service -Name 'BITS' -ErrorAction SilentlyContinue
Write-Output 'BITS включена.'
"#;

/// The script that switches a service off (`disable`) or back on.
pub open spec fn spec_service_script(id: ServiceId, disable: bool) -> Seq<char> {
    match id {
        ServiceId::DiagTrack => if disable {
            DIAGTRACK_DISABLE@
        } else {
            DIAGTRACK_ENABLE@
        },
        ServiceId::Dmwappushservice => if disable {
            DMWAPPUSH_DISABLE@
        } else {
            DMWAPPUSH_ENABLE@
        },
        ServiceId::WSearch => if disable {
            WSEARCH_DISABLE@
        } else {
            WSEARCH_ENABLE@
        },
        ServiceId::Dosvc => if disable {
            DOSVC_DISABLE@
        } else {
            DOSVC_ENABLE@
        },
        ServiceId::RetailDemo => if disable {
            RETAILDEMO_DISABLE@
        } else {
            RETAILDEMO_ENABLE@
        },
        ServiceId::XblGameSave => if disable {
            XBLGAMESAVE_DISABLE@
        } else {
            XBLGAMESAVE_ENABLE@
        },
        ServiceId::DcpSvc => if disable {
            DCPSVC_DISABLE@
        } else {
            DCPSVC_ENABLE@
        },
        ServiceId::PcaSvc => if disable {
            PCASVC_DISABLE@
        } else {
            PCASVC_ENABLE@
        },
        ServiceId::Bits => if disable {
            BITS_DISABLE@
        } else {
            BITS_ENABLE@
        },
    }
}

pub fn service_script(id: ServiceId, disable: bool) -> (r: &'static str)
    ensures
        r@ == spec_service_script(id, disable),
{
    match id {
        ServiceId::DiagTrack => if disable {
            DIAGTRACK_DISABLE
        } else {
            DIAGTRACK_ENABLE
        },
        ServiceId::Dmwappushservice => if disable {
            DMWAPPUSH_DISABLE
        } else {
            DMWAPPUSH_ENABLE
        },
        ServiceId::WSearch => if disable {
            WSEARCH_DISABLE
        } else {
            WSEARCH_ENABLE
        },
        ServiceId::Dosvc => if disable {
            DOSVC_DISABLE
        } else {
            DOSVC_ENABLE
        },
        ServiceId::RetailDemo => if disable {
            RETAILDEMO_DISABLE
        } else {
            RETAILDEMO_ENABLE
        },
        ServiceId::XblGameSave => if disable {
            XBLGAMESAVE_DISABLE
        } else {
            XBLGAMESAVE_ENABLE
        },
        ServiceId::DcpSvc => if disable {
            DCPSVC_DISABLE
        } else {
            DCPSVC_ENABLE
        },
        ServiceId::PcaSvc => if disable {
            PCASVC_DISABLE
        } else {
            PCASVC_ENABLE
        },
        ServiceId::Bits => if disable {
            BITS_DISABLE
        } else {
            BITS_ENABLE
        },
    }
}

/// Prints one `key=status:startup` line per service.
pub const SERVICE_STATUS_SCRIPT: &'static str = r#"
$ErrorActionPreference = 'SilentlyContinue'
$results = @()

foreach ($svc in @(
    @{Key='diagtrack'; Name='DiagTrack'},
    @{Key='dmwappushservice'; Name='dmwappushservice'},
    @{Key='wsearch'; Name='WSearch'},
    @{Key='dosvc'; Name='DoSvc'},
    @{Key='retaildemo'; Name='RetailDemo'},
    @{Key='xblgamesave'; Name='XblGameSave'},
    @{Key='dcpsvc'; Name='DcpSvc'},
    @{Key='pcasvc'; Name='PcaSvc'},
    @{Key='bits'; Name='BITS'}
)) {
    $s = Get-Service -Name $svc.Name -ErrorAction SilentlyContinue
    if ($s) {
        $status = if ($s.Status -eq 'Running') { 'running' } else { 'stopped' }
        $startup = switch ($s.StartType) {
            'Disabled' { 'disabled' }
            'Automatic' { 'automatic' }
            'Manual' { 'manual' }
            default { 'unknown' }
        }
        Write-Output "$($svc.Key)=$status`:$startup"
    } else {
        Write-Output "$($svc.Key)=unknown:unknown"
    }
}
"#;

/// A `status:startup` value: a disabled start-up type wins, then a running
/// or stopped state; anything else is unknown.
pub open spec fn spec_parse_service_status_value(v: Seq<char>) -> ServiceStatus {
    let parts = split(v, ':');
    let status = parts[0];
    let startup = if parts.len() > 1 {
        parts[1]
    } else {
        Seq::empty()
    };
    if startup == "disabled"@ {
        ServiceStatus::Disabled
    } else if status == "running"@ {
        ServiceStatus::Running
    } else if status == "stopped"@ {
        ServiceStatus::Stopped
    } else {
        ServiceStatus::Unknown
    }
}

fn status_value_range(v: &[char], lo: usize, hi: usize) -> (r: ServiceStatus)
    requires
        lo <= hi <= v@.len(),
    ensures
        r == spec_parse_service_status_value(v@.subrange(lo as int, hi as int)),
{
    let parts = split_bounds_range(v, lo, hi, ':');
    proof {
        lemma_split_nonempty(v@.subrange(lo as int, hi as int), ':');
    }
    let (sa, sb) = parts[0];
    let disabled = if parts.len() > 1 {
        let (ua, ub) = parts[1];
        range_eq_str(v, ua, ub, "disabled")
    } else {
        proof {
            reveal_strlit("disabled");
            assert("disabled"@.len() == 8);
            assert(Seq::<char>::empty() != "disabled"@);
        }
        false
    };
    if disabled {
        ServiceStatus::Disabled
    } else if range_eq_str(v, sa, sb, "running") {
        ServiceStatus::Running
    } else if range_eq_str(v, sa, sb, "stopped") {
        ServiceStatus::Stopped
    } else {
        ServiceStatus::Unknown
    }
}

/// Reads one `status:startup` value of the status report.
pub fn parse_service_status_value(v: &str) -> (r: ServiceStatus)
    ensures
        r == spec_parse_service_status_value(v@),
{
    let c = chars_of(v);
    proof {
        assert(c@.subrange(0, c@.len() as int) == c@);
    }
    status_value_range(c.as_slice(), 0, c.len())
}

/// One line of the status report: blank lines are skipped, `key=value` with
/// a known key adds that service and its status.
pub open spec fn service_step(
    acc: Seq<(ServiceId, ServiceStatus)>,
    raw: Seq<char>,
) -> Seq<(ServiceId, ServiceStatus)> {
    if trim(raw).len() == 0 {
        acc
    } else {
        match split_once(trim(raw), '=') {
            None => acc,
            Some((k, v)) => match ServiceId::spec_from_key(trim(k)) {
                Some(id) => acc.push((id, spec_parse_service_status_value(trim(v)))),
                None => acc,
            },
        }
    }
}

pub open spec fn service_lines(
    lines: Seq<Seq<char>>,
    acc: Seq<(ServiceId, ServiceStatus)>,
) -> Seq<(ServiceId, ServiceStatus)>
    decreases lines.len(),
{
    if lines.len() == 0 {
        acc
    } else {
        service_lines(lines.drop_first(), service_step(acc, lines[0]))
    }
}

pub open spec fn spec_parse_service_status_output(out: Seq<char>) -> Seq<
    (ServiceId, ServiceStatus),
> {
    service_lines(split(out, '\n'), Seq::empty())
}

/// Reads the report printed by `SERVICE_STATUS_SCRIPT`.
pub fn parse_service_status_output(out: &str) -> (r: Vec<(ServiceId, ServiceStatus)>)
    ensures
        r@ == spec_parse_service_status_output(out@),
{
    let v = chars_of(out);
    let lines = split_bounds(v.as_slice(), '\n');
    let ghost pieces = split(v@, '\n');
    let mut acc: Vec<(ServiceId, ServiceStatus)> = Vec::new();
    let mut k: usize = 0;
    proof {
        assert(pieces.skip(0) == pieces);
    }
    while k < lines.len()
        invariant
            pieces == split(v@, '\n'),
            lines@.len() == pieces.len(),
            forall|j: int|
                0 <= j < lines@.len() ==> (#[trigger] lines@[j]).0 <= lines@[j].1 <= v@.len()
                    && v@.subrange(lines@[j].0 as int, lines@[j].1 as int) == pieces[j],
            k <= lines@.len(),
            spec_parse_service_status_output(out@) == service_lines(pieces.skip(k as int), acc@),
            v@ == out@,
        decreases lines.len() - k,
    {
        let (lo, hi) = lines[k];
        proof {
            assert(pieces.skip(k as int)[0] == pieces[k as int]);
            assert(pieces.skip(k as int).drop_first() == pieces.skip(k + 1));
        }
        match kv_bounds(v.as_slice(), lo, hi) {
            Some((ka, kb, va, vb)) => {
                let key = string_of_range(v.as_slice(), ka, kb);
                match ServiceId::from_key(key.as_str()) {
                    Some(id) => {
                        let status = status_value_range(v.as_slice(), va, vb);
                        acc.push((id, status));
                    },
                    None => {},
                }
            },
            None => {},
        }
        k = k + 1;
    }
    acc
}

} // verus!
