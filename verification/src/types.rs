//! The data the application works on: the entries shown on each page, their
//! states, the identifiers of cleanup, telemetry and service entries with the
//! keys under which the PowerShell scripts report them, and the messages that
//! background work sends back.

use vstd::prelude::*;

use crate::text::range_eq_str;
use crate::text::chars_of;

verus! {

/// Whether a UWP package is installed.
#[derive(Clone, Copy, Debug, PartialEq, Eq, Structural)]
pub enum Status {
    Unknown,
    Installed,
    NotInstalled,
}

/// One UWP application on the applications page.
pub struct Card {
    pub title: String,
    pub description: String,
    pub package: String,
    pub status: Status,
    pub busy: bool,
    pub log: Option<String>,
}

/// One entry of the navigation column.
pub struct NavItem {
    pub icon: &'static str,
    pub label: &'static str,
    pub beta: bool,
}

/// The page shown in the main panel.
#[derive(Clone, Copy, PartialEq, Eq, Debug, Structural)]
pub enum Page {
    Home,
    Uwp,
    Telemetry,
    Memory,
    Cleanup,
    Services,
    Settings,
}

/// A cleanup category.
#[derive(Clone, Copy, PartialEq, Eq, Debug, Hash, Structural)]
pub enum CleanupId {
    RecycleBin,
    UserTemp,
    SystemTemp,
    CrashDumps,
    WerReports,
    MinidumpAndLkr,
    SoftwareDistribution,
    Catroot2,
    DeliveryOptimization,
    WindowsOld,
    UpgradeLeftovers,
    LastGood,
    Prefetch,
    FontCache,
    IconCache,
    ThumbnailCache,
    DnsCache,
    StoreCache,
    SearchCache,
    CbsDismLogs,
    PrintQueue,
    RecentFiles,
    EdgeCache,
    ChromeCache,
    FirefoxCache,
    WinSxSComponentCleanup,
    OldRestorePoints,
    HiberfilOff,
}

/// Every cleanup category, in the order of the cleanup page.
pub open spec fn all_cleanup_ids() -> Seq<CleanupId> {
    seq![
        CleanupId::RecycleBin,
        CleanupId::UserTemp,
        CleanupId::SystemTemp,
        CleanupId::CrashDumps,
        CleanupId::WerReports,
        CleanupId::MinidumpAndLkr,
        CleanupId::SoftwareDistribution,
        CleanupId::Catroot2,
        CleanupId::DeliveryOptimization,
        CleanupId::WindowsOld,
        CleanupId::UpgradeLeftovers,
        CleanupId::LastGood,
        CleanupId::Prefetch,
        CleanupId::FontCache,
        CleanupId::IconCache,
        CleanupId::ThumbnailCache,
        CleanupId::DnsCache,
        CleanupId::StoreCache,
        CleanupId::SearchCache,
        CleanupId::CbsDismLogs,
        CleanupId::PrintQueue,
        CleanupId::RecentFiles,
        CleanupId::EdgeCache,
        CleanupId::ChromeCache,
        CleanupId::FirefoxCache,
        CleanupId::WinSxSComponentCleanup,
        CleanupId::OldRestorePoints,
        CleanupId::HiberfilOff,
    ]
}

pub fn all_cleanup_ids_exec() -> (v: Vec<CleanupId>)
    ensures
        v@ == all_cleanup_ids(),
{
    let v = vec![
        CleanupId::RecycleBin,
        CleanupId::UserTemp,
        CleanupId::SystemTemp,
        CleanupId::CrashDumps,
        CleanupId::WerReports,
        CleanupId::MinidumpAndLkr,
        CleanupId::SoftwareDistribution,
        CleanupId::Catroot2,
        CleanupId::DeliveryOptimization,
        CleanupId::WindowsOld,
        CleanupId::UpgradeLeftovers,
        CleanupId::LastGood,
        CleanupId::Prefetch,
        CleanupId::FontCache,
        CleanupId::IconCache,
        CleanupId::ThumbnailCache,
        CleanupId::DnsCache,
        CleanupId::StoreCache,
        CleanupId::SearchCache,
        CleanupId::CbsDismLogs,
        CleanupId::PrintQueue,
        CleanupId::RecentFiles,
        CleanupId::EdgeCache,
        CleanupId::ChromeCache,
        CleanupId::FirefoxCache,
        CleanupId::WinSxSComponentCleanup,
        CleanupId::OldRestorePoints,
        CleanupId::HiberfilOff,
    ];
    assert(v@ =~= all_cleanup_ids());
    v
}

impl CleanupId {
    /// The key under which the size script reports this category.
    pub open spec fn spec_key(self) -> Seq<char> {
        match self {
            CleanupId::RecycleBin => "recyclebin"@,
            CleanupId::UserTemp => "usertemp"@,
            CleanupId::SystemTemp => "systemtemp"@,
            CleanupId::CrashDumps => "crashdumps"@,
            CleanupId::WerReports => "wer"@,
            CleanupId::MinidumpAndLkr => "minidump"@,
            CleanupId::SoftwareDistribution => "wuadl"@,
            CleanupId::Catroot2 => "catroot2"@,
            CleanupId::DeliveryOptimization => "deliveryopt"@,
            CleanupId::WindowsOld => "windowsold"@,
            CleanupId::UpgradeLeftovers => "upgradeleft"@,
            CleanupId::LastGood => "lastgood"@,
            CleanupId::Prefetch => "prefetch"@,
            CleanupId::FontCache => "fontcache"@,
            CleanupId::IconCache => "iconcache"@,
            CleanupId::ThumbnailCache => "thumbcache"@,
            CleanupId::DnsCache => "dnscache"@,
            CleanupId::StoreCache => "storecache"@,
            CleanupId::SearchCache => "searchcache"@,
            CleanupId::CbsDismLogs => "cbsdism"@,
            CleanupId::PrintQueue => "printq"@,
            CleanupId::RecentFiles => "recent"@,
            CleanupId::EdgeCache => "edgecache"@,
            CleanupId::ChromeCache => "chromecache"@,
            CleanupId::FirefoxCache => "firefoxcache"@,
            CleanupId::WinSxSComponentCleanup => "winsxs"@,
            CleanupId::OldRestorePoints => "restorepts"@,
            CleanupId::HiberfilOff => "hiberfil"@,
        }
    }

    pub fn key(self) -> (r: &'static str)
        ensures
            r@ == self.spec_key(),
    {
        match self {
            CleanupId::RecycleBin => "recyclebin",
            CleanupId::UserTemp => "usertemp",
            CleanupId::SystemTemp => "systemtemp",
            CleanupId::CrashDumps => "crashdumps",
            CleanupId::WerReports => "wer",
            CleanupId::MinidumpAndLkr => "minidump",
            CleanupId::SoftwareDistribution => "wuadl",
            CleanupId::Catroot2 => "catroot2",
            CleanupId::DeliveryOptimization => "deliveryopt",
            CleanupId::WindowsOld => "windowsold",
            CleanupId::UpgradeLeftovers => "upgradeleft",
            CleanupId::LastGood => "lastgood",
            CleanupId::Prefetch => "prefetch",
            CleanupId::FontCache => "fontcache",
            CleanupId::IconCache => "iconcache",
            CleanupId::ThumbnailCache => "thumbcache",
            CleanupId::DnsCache => "dnscache",
            CleanupId::StoreCache => "storecache",
            CleanupId::SearchCache => "searchcache",
            CleanupId::CbsDismLogs => "cbsdism",
            CleanupId::PrintQueue => "printq",
            CleanupId::RecentFiles => "recent",
            CleanupId::EdgeCache => "edgecache",
            CleanupId::ChromeCache => "chromecache",
            CleanupId::FirefoxCache => "firefoxcache",
            CleanupId::WinSxSComponentCleanup => "winsxs",
            CleanupId::OldRestorePoints => "restorepts",
            CleanupId::HiberfilOff => "hiberfil",
        }
    }

    /// The category whose key is `s`, if there is one (keys are distinct:
    /// `lemma_cleanup_key_injective`).
    pub open spec fn spec_from_key(s: Seq<char>) -> Option<CleanupId> {
        if exists|id: CleanupId| id.spec_key() == s {
            Some(choose|id: CleanupId| id.spec_key() == s)
        } else {
            None
        }
    }

    /// The category reported under key `s`, or `None` when no category has
    /// that key.
    pub fn from_key(s: &str) -> (r: Option<Self>)
        ensures
            r == Self::spec_from_key(s@),
    {
        let sv = chars_of(s);
        let all = all_cleanup_ids_exec();
        let mut i: usize = 0;
        while i < all.len()
            invariant
                all@ == all_cleanup_ids(),
                sv@ == s@,
                i <= all@.len(),
                forall|j: int| 0 <= j < i ==> (#[trigger] all@[j]).spec_key() != s@,
            decreases all.len() - i,
        {
            let k = all[i].key();
            proof {
                assert(sv@.subrange(0, sv@.len() as int) == sv@);
            }
            if range_eq_str(sv.as_slice(), 0, sv.len(), k) {
                proof {
                    let id = all@[i as int];
                    assert(id.spec_key() == s@);
                    let c = choose|c: CleanupId| c.spec_key() == s@;
                    lemma_cleanup_key_injective(c, id);
                }
                return Some(all[i]);
            }
            i = i + 1;
        }
        proof {
            assert forall|id: CleanupId| id.spec_key() != s@ by {
                lemma_cleanup_id_listed(id);
            }
        }
        None
    }
}

/// Reading back the key of a cleanup category gives that category.
pub proof fn lemma_cleanup_key_roundtrip(id: CleanupId)
    ensures
        CleanupId::spec_from_key(id.spec_key()) == Some(id),
        id.spec_key().len() > 0,
{
    let c = choose|c: CleanupId| c.spec_key() == id.spec_key();
    lemma_cleanup_key_injective(c, id);
    lemma_cleanup_key_nonempty(id);
}

/// Every cleanup category is listed in `all_cleanup_ids`.
pub proof fn lemma_cleanup_id_listed(id: CleanupId)
    ensures
        exists|i: int| 0 <= i < all_cleanup_ids().len() && all_cleanup_ids()[i] == id,
{
    let ids = all_cleanup_ids();
    match id {
        CleanupId::RecycleBin => assert(ids[0] == id),
        CleanupId::UserTemp => assert(ids[1] == id),
        CleanupId::SystemTemp => assert(ids[2] == id),
        CleanupId::CrashDumps => assert(ids[3] == id),
        CleanupId::WerReports => assert(ids[4] == id),
        CleanupId::MinidumpAndLkr => assert(ids[5] == id),
        CleanupId::SoftwareDistribution => assert(ids[6] == id),
        CleanupId::Catroot2 => assert(ids[7] == id),
        CleanupId::DeliveryOptimization => assert(ids[8] == id),
        CleanupId::WindowsOld => assert(ids[9] == id),
        CleanupId::UpgradeLeftovers => assert(ids[10] == id),
        CleanupId::LastGood => assert(ids[11] == id),
        CleanupId::Prefetch => assert(ids[12] == id),
        CleanupId::FontCache => assert(ids[13] == id),
        CleanupId::IconCache => assert(ids[14] == id),
        CleanupId::ThumbnailCache => assert(ids[15] == id),
        CleanupId::DnsCache => assert(ids[16] == id),
        CleanupId::StoreCache => assert(ids[17] == id),
        CleanupId::SearchCache => assert(ids[18] == id),
        CleanupId::CbsDismLogs => assert(ids[19] == id),
        CleanupId::PrintQueue => assert(ids[20] == id),
        CleanupId::RecentFiles => assert(ids[21] == id),
        CleanupId::EdgeCache => assert(ids[22] == id),
        CleanupId::ChromeCache => assert(ids[23] == id),
        CleanupId::FirefoxCache => assert(ids[24] == id),
        CleanupId::WinSxSComponentCleanup => assert(ids[25] == id),
        CleanupId::OldRestorePoints => assert(ids[26] == id),
        CleanupId::HiberfilOff => assert(ids[27] == id),
    }
}


/// Distinct cleanup categories have distinct keys.
pub proof fn lemma_cleanup_key_injective(a: CleanupId, b: CleanupId)
    requires
        a.spec_key() == b.spec_key(),
    ensures
        a == b,
{
    reveal_strlit("recyclebin");
    reveal_strlit("usertemp");
    reveal_strlit("systemtemp");
    reveal_strlit("crashdumps");
    reveal_strlit("wer");
    reveal_strlit("minidump");
    reveal_strlit("wuadl");
    reveal_strlit("catroot2");
    reveal_strlit("deliveryopt");
    reveal_strlit("windowsold");
    reveal_strlit("upgradeleft");
    reveal_strlit("lastgood");
    reveal_strlit("prefetch");
    reveal_strlit("fontcache");
    reveal_strlit("iconcache");
    reveal_strlit("thumbcache");
    reveal_strlit("dnscache");
    reveal_strlit("storecache");
    reveal_strlit("searchcache");
    reveal_strlit("cbsdism");
    reveal_strlit("printq");
    reveal_strlit("recent");
    reveal_strlit("edgecache");
    reveal_strlit("chromecache");
    reveal_strlit("firefoxcache");
    reveal_strlit("winsxs");
    reveal_strlit("restorepts");
    reveal_strlit("hiberfil");
    let ka = a.spec_key();
    let kb = b.spec_key();
    assert(ka.len() == kb.len());
    assert(ka[0] == kb[0]);
    assert(ka[1] == kb[1]);
    assert(ka[2] == kb[2]);
}


/// The space a cleanup category would free.
#[derive(Clone, Copy, PartialEq, Eq, Debug, Structural)]
pub enum CleanupSize {
    Unknown,
    NotApplicable,
    Bytes(u64),
}

/// One category on the cleanup page.
pub struct CleanupItem {
    pub id: CleanupId,
    pub title: String,
    pub description: String,
    pub size: CleanupSize,
    pub danger: bool,
    pub busy: bool,
    pub log: Option<String>,
}

/// Whether an application's telemetry is switched off.
#[derive(Clone, Copy, PartialEq, Eq, Debug, Structural)]
pub enum TelemetryStatus {
    Unknown,
    Disabled,
    Enabled,
}

/// An application whose telemetry the telemetry page switches.
#[derive(Clone, Copy, PartialEq, Eq, Debug, Hash, Structural)]
pub enum TelemetryId {
    Office,
    Firefox,
    Chrome,
    Nvidia,
    VisualStudio,
    Windows,
}

impl TelemetryId {
    /// The key under which the status script reports this application.
    pub open spec fn spec_key(self) -> Seq<char> {
        match self {
            TelemetryId::Office => "office"@,
            TelemetryId::Firefox => "firefox"@,
            TelemetryId::Chrome => "chrome"@,
            TelemetryId::Nvidia => "nvidia"@,
            TelemetryId::VisualStudio => "vs"@,
            TelemetryId::Windows => "windows"@,
        }
    }

    pub fn key(self) -> (r: &'static str)
        ensures
            r@ == self.spec_key(),
    {
        match self {
            TelemetryId::Office => "office",
            TelemetryId::Firefox => "firefox",
            TelemetryId::Chrome => "chrome",
            TelemetryId::Nvidia => "nvidia",
            TelemetryId::VisualStudio => "vs",
            TelemetryId::Windows => "windows",
        }
    }

    pub open spec fn spec_from_key(s: Seq<char>) -> Option<TelemetryId> {
        if s == "office"@ {
            Some(TelemetryId::Office)
        } else if s == "firefox"@ {
            Some(TelemetryId::Firefox)
        } else if s == "chrome"@ {
            Some(TelemetryId::Chrome)
        } else if s == "nvidia"@ {
            Some(TelemetryId::Nvidia)
        } else if s == "vs"@ {
            Some(TelemetryId::VisualStudio)
        } else if s == "windows"@ {
            Some(TelemetryId::Windows)
        } else {
            None
        }
    }

    /// The application reported under key `s`, or `None`.
    pub fn from_key(s: &str) -> (r: Option<Self>)
        ensures
            r == Self::spec_from_key(s@),
    {
        let v = chars_of(s);
        let n = v.len();
        proof {
            assert(v@.subrange(0, n as int) == s@);
        }
        if range_eq_str(v.as_slice(), 0, n, "office") {
            Some(TelemetryId::Office)
        } else if range_eq_str(v.as_slice(), 0, n, "firefox") {
            Some(TelemetryId::Firefox)
        } else if range_eq_str(v.as_slice(), 0, n, "chrome") {
            Some(TelemetryId::Chrome)
        } else if range_eq_str(v.as_slice(), 0, n, "nvidia") {
            Some(TelemetryId::Nvidia)
        } else if range_eq_str(v.as_slice(), 0, n, "vs") {
            Some(TelemetryId::VisualStudio)
        } else if range_eq_str(v.as_slice(), 0, n, "windows") {
            Some(TelemetryId::Windows)
        } else {
            None
        }
    }
}

/// Reading back the key of a telemetry entry gives that entry.
pub proof fn lemma_telemetry_key_roundtrip(id: TelemetryId)
    ensures
        TelemetryId::spec_from_key(id.spec_key()) == Some(id),
        id.spec_key().len() > 0,
{
    reveal_strlit("office");
    reveal_strlit("firefox");
    reveal_strlit("chrome");
    reveal_strlit("nvidia");
    reveal_strlit("vs");
    reveal_strlit("windows");
    let k = id.spec_key();
    assert("office"@.len() == 6 && "office"@[0] == 'o');
    assert("firefox"@.len() == 7 && "firefox"@[0] == 'f');
    assert("chrome"@.len() == 6 && "chrome"@[0] == 'c');
    assert("nvidia"@.len() == 6 && "nvidia"@[0] == 'n');
    assert("vs"@.len() == 2 && "vs"@[0] == 'v');
    assert("windows"@.len() == 7 && "windows"@[0] == 'w');
    assert(k.len() > 0);
    assert(k[0] == k[0]);

}

/// One application on the telemetry page.
pub struct TelemetryItem {
    pub id: TelemetryId,
    pub title: String,
    pub description: String,
    pub status: TelemetryStatus,
    pub busy: bool,
    pub log: Option<String>,
}

/// A Windows service on the services page.
#[derive(Clone, Copy, PartialEq, Eq, Debug, Hash, Structural)]
pub enum ServiceId {
    DiagTrack,
    Dmwappushservice,
    WSearch,
    Dosvc,
    RetailDemo,
    XblGameSave,
    DcpSvc,
    PcaSvc,
    Bits,
}

impl ServiceId {
    /// The key under which the status script reports this service.
    pub open spec fn spec_key(self) -> Seq<char> {
        match self {
            ServiceId::DiagTrack => "diagtrack"@,
            ServiceId::Dmwappushservice => "dmwappushservice"@,
            ServiceId::WSearch => "wsearch"@,
            ServiceId::Dosvc => "dosvc"@,
            ServiceId::RetailDemo => "retaildemo"@,
            ServiceId::XblGameSave => "xblgamesave"@,
            ServiceId::DcpSvc => "dcpsvc"@,
            ServiceId::PcaSvc => "pcasvc"@,
            ServiceId::Bits => "bits"@,
        }
    }

    pub fn key(self) -> (r: &'static str)
        ensures
            r@ == self.spec_key(),
    {
        match self {
            ServiceId::DiagTrack => "diagtrack",
            ServiceId::Dmwappushservice => "dmwappushservice",
            ServiceId::WSearch => "wsearch",
            ServiceId::Dosvc => "dosvc",
            ServiceId::RetailDemo => "retaildemo",
            ServiceId::XblGameSave => "xblgamesave",
            ServiceId::DcpSvc => "dcpsvc",
            ServiceId::PcaSvc => "pcasvc",
            ServiceId::Bits => "bits",
        }
    }

    pub open spec fn spec_from_key(s: Seq<char>) -> Option<ServiceId> {
        if s == "diagtrack"@ {
            Some(ServiceId::DiagTrack)
        } else if s == "dmwappushservice"@ {
            Some(ServiceId::Dmwappushservice)
        } else if s == "wsearch"@ {
            Some(ServiceId::WSearch)
        } else if s == "dosvc"@ {
            Some(ServiceId::Dosvc)
        } else if s == "retaildemo"@ {
            Some(ServiceId::RetailDemo)
        } else if s == "xblgamesave"@ {
            Some(ServiceId::XblGameSave)
        } else if s == "dcpsvc"@ {
            Some(ServiceId::DcpSvc)
        } else if s == "pcasvc"@ {
            Some(ServiceId::PcaSvc)
        } else if s == "bits"@ {
            Some(ServiceId::Bits)
        } else {
            None
        }
    }

    /// The service reported under key `s`, or `None`.
    pub fn from_key(s: &str) -> (r: Option<Self>)
        ensures
            r == Self::spec_from_key(s@),
    {
        let v = chars_of(s);
        let n = v.len();
        proof {
            assert(v@.subrange(0, n as int) == s@);
        }
        if range_eq_str(v.as_slice(), 0, n, "diagtrack") {
            Some(ServiceId::DiagTrack)
        } else if range_eq_str(v.as_slice(), 0, n, "dmwappushservice") {
            Some(ServiceId::Dmwappushservice)
        } else if range_eq_str(v.as_slice(), 0, n, "wsearch") {
            Some(ServiceId::WSearch)
        } else if range_eq_str(v.as_slice(), 0, n, "dosvc") {
            Some(ServiceId::Dosvc)
        } else if range_eq_str(v.as_slice(), 0, n, "retaildemo") {
            Some(ServiceId::RetailDemo)
        } else if range_eq_str(v.as_slice(), 0, n, "xblgamesave") {
            Some(ServiceId::XblGameSave)
        } else if range_eq_str(v.as_slice(), 0, n, "dcpsvc") {
            Some(ServiceId::DcpSvc)
        } else if range_eq_str(v.as_slice(), 0, n, "pcasvc") {
            Some(ServiceId::PcaSvc)
        } else if range_eq_str(v.as_slice(), 0, n, "bits") {
            Some(ServiceId::Bits)
        } else {
            None
        }
    }
}

/// Reading back the key of a service gives that service.
pub proof fn lemma_service_key_roundtrip(id: ServiceId)
    ensures
        ServiceId::spec_from_key(id.spec_key()) == Some(id),
        id.spec_key().len() > 0,
{
    reveal_strlit("diagtrack");
    reveal_strlit("dmwappushservice");
    reveal_strlit("wsearch");
    reveal_strlit("dosvc");
    reveal_strlit("retaildemo");
    reveal_strlit("xblgamesave");
    reveal_strlit("dcpsvc");
    reveal_strlit("pcasvc");
    reveal_strlit("bits");
    let k = id.spec_key();
    assert("diagtrack"@.len() == 9 && "diagtrack"@[0] == 'd');
    assert("dmwappushservice"@.len() == 16 && "dmwappushservice"@[0] == 'd');
    assert("wsearch"@.len() == 7 && "wsearch"@[0] == 'w');
    assert("dosvc"@.len() == 5 && "dosvc"@[0] == 'd');
    assert("retaildemo"@.len() == 10 && "retaildemo"@[0] == 'r');
    assert("xblgamesave"@.len() == 11 && "xblgamesave"@[0] == 'x');
    assert("dcpsvc"@.len() == 6 && "dcpsvc"@[0] == 'd');
    assert("pcasvc"@.len() == 6 && "pcasvc"@[0] == 'p');
    assert("bits"@.len() == 4 && "bits"@[0] == 'b');
    assert(k.len() > 0);
    assert(k[0] == k[0]);

}

/// The state of a Windows service.
#[derive(Clone, Copy, PartialEq, Eq, Debug, Structural)]
pub enum ServiceStatus {
    Unknown,
    Running,
    Stopped,
    Disabled,
}

/// One service on the services page.
pub struct ServiceItem {
    pub id: ServiceId,
    pub title: String,
    pub description: String,
    pub status: ServiceStatus,
    pub busy: bool,
    pub log: Option<String>,
}

/// The Windows Update policy that the update page applies.
#[derive(Clone, Copy, PartialEq, Eq, Debug, Structural)]
pub enum WindowsUpdateAction {
    Default,
    Security,
    Disable,
}

/// Facts about the machine shown on the home page.
#[derive(Clone)]
pub struct SysInfo {
    pub os: String,
    pub build: String,
    pub arch: String,
    pub hostname: String,
    pub user: String,
    pub is_admin: Option<bool>,
    pub cpu: String,
    pub gpu: String,
    pub ram_gb: String,
}

/// The model of `SysInfo`: its text fields as character sequences.
pub struct SysInfoView {
    pub os: Seq<char>,
    pub build: Seq<char>,
    pub arch: Seq<char>,
    pub hostname: Seq<char>,
    pub user: Seq<char>,
    pub is_admin: Option<bool>,
    pub cpu: Seq<char>,
    pub gpu: Seq<char>,
    pub ram_gb: Seq<char>,
}

impl View for SysInfo {
    type V = SysInfoView;

    open spec fn view(&self) -> SysInfoView {
        SysInfoView {
            os: self.os@,
            build: self.build@,
            arch: self.arch@,
            hostname: self.hostname@,
            user: self.user@,
            is_admin: self.is_admin,
            cpu: self.cpu@,
            gpu: self.gpu@,
            ram_gb: self.ram_gb@,
        }
    }
}

/// No facts known: every text empty, administrator rights unknown.
pub open spec fn empty_sys_info() -> SysInfoView {
    SysInfoView {
        os: Seq::empty(),
        build: Seq::empty(),
        arch: Seq::empty(),
        hostname: Seq::empty(),
        user: Seq::empty(),
        is_admin: None,
        cpu: Seq::empty(),
        gpu: Seq::empty(),
        ram_gb: Seq::empty(),
    }
}

impl Default for SysInfo {
    fn default() -> (r: Self)
        ensures
            r@ == empty_sys_info(),
    {
        SysInfo {
            os: String::new(),
            build: String::new(),
            arch: String::new(),
            hostname: String::new(),
            user: String::new(),
            is_admin: None,
            cpu: String::new(),
            gpu: String::new(),
            ram_gb: String::new(),
        }
    }
}

/// Memory figures shown on the memory page, in bytes and percent.
#[derive(Clone, Copy, Debug)]
pub struct MemInfo {
    pub total_bytes: u64,
    pub avail_bytes: u64,
    pub standby_bytes: u64,
    pub modified_bytes: u64,
    pub free_bytes: u64,
    pub memory_load: u32,
}

impl Default for MemInfo {
    fn default() -> (r: Self)
        ensures
            r.total_bytes == 0,
            r.avail_bytes == 0,
            r.standby_bytes == 0,
            r.modified_bytes == 0,
            r.free_bytes == 0,
            r.memory_load == 0,
    {
        MemInfo {
            total_bytes: 0,
            avail_bytes: 0,
            standby_bytes: 0,
            modified_bytes: 0,
            free_bytes: 0,
            memory_load: 0,
        }
    }
}

/// An operation on the memory lists of Windows.
#[derive(Clone, Copy, PartialEq, Eq, Debug, Structural)]
pub enum MemOp {
    PurgeStandby,
    PurgeLowPriorityStandby,
    EmptyWorkingSets,
    FlushModified,
}

impl MemOp {
    /// The `SYSTEM_MEMORY_LIST_COMMAND` value handed to
    /// `NtSetSystemInformation`.
    pub open spec fn spec_command(self) -> i32 {
        match self {
            MemOp::EmptyWorkingSets => 2,
            MemOp::FlushModified => 3,
            MemOp::PurgeStandby => 4,
            MemOp::PurgeLowPriorityStandby => 5,
        }
    }

    pub fn command(self) -> (r: i32)
        ensures
            r == self.spec_command(),
    {
        match self {
            MemOp::EmptyWorkingSets => 2,
            MemOp::FlushModified => 3,
            MemOp::PurgeStandby => 4,
            MemOp::PurgeLowPriorityStandby => 5,
        }
    }

    pub open spec fn spec_title(self) -> Seq<char> {
        match self {
            MemOp::PurgeStandby => "Очистить ожидающую память"@,
            MemOp::PurgeLowPriorityStandby => "Очистить low-priority standby"@,
            MemOp::EmptyWorkingSets => "Сбросить рабочие наборы"@,
            MemOp::FlushModified => "Сбросить изменённые страницы"@,
        }
    }

    pub fn title(self) -> (r: &'static str)
        ensures
            r@ == self.spec_title(),
    {
        match self {
            MemOp::PurgeStandby => "Очистить ожидающую память",
            MemOp::PurgeLowPriorityStandby => "Очистить low-priority standby",
            MemOp::EmptyWorkingSets => "Сбросить рабочие наборы",
            MemOp::FlushModified => "Сбросить изменённые страницы",
        }
    }

    pub open spec fn spec_description(self) -> Seq<char> {
        match self {
            MemOp::PurgeStandby => "Полная очистка standby-кеша Windows. Аналог Empty Standby List."@,
            MemOp::PurgeLowPriorityStandby => "Очищает только низкоприоритетную часть standby-кеша. Меньшее влияние на производительность."@,
            MemOp::EmptyWorkingSets => "Сбрасывает рабочие наборы всех процессов. Свободная память возрастёт, но запущенные программы могут на короткое время «подтормозить»."@,
            MemOp::FlushModified => "Сбрасывает изменённые страницы на диск/в standby-список."@,
        }
    }

    pub fn description(self) -> (r: &'static str)
        ensures
            r@ == self.spec_description(),
    {
        match self {
            MemOp::PurgeStandby => "Полная очистка standby-кеша Windows. Аналог Empty Standby List.",
            MemOp::PurgeLowPriorityStandby => "Очищает только низкоприоритетную часть standby-кеша. Меньшее влияние на производительность.",
            MemOp::EmptyWorkingSets => "Сбрасывает рабочие наборы всех процессов. Свободная память возрастёт, но запущенные программы могут на короткое время «подтормозить».",
            MemOp::FlushModified => "Сбрасывает изменённые страницы на диск/в standby-список.",
        }
    }
}

/// Where the self-update stands.
#[derive(Clone)]
pub enum UpdateState {
    Idle,
    Checking,
    Installing,
    UpToDate { latest: String },
    Available { latest: String },
    Done { from: String, to: String },
    Error(String),
}

/// How a background task ended, or that it still runs.
#[derive(Clone, Copy, PartialEq, Eq, Debug, Structural)]
pub enum TaskStatus {
    Running,
    Done,
    Failed,
}

/// One background task listed on the settings page.
#[derive(Clone)]
pub struct TaskEntry {
    pub name: String,
    pub status: TaskStatus,
    pub log: String,
}

impl TaskEntry {
    /// A running task without log text.
    pub fn new(name: &str) -> (r: Self)
        ensures
            r.name@ == name@,
            r.status == TaskStatus::Running,
            r.log@ == Seq::<char>::empty(),
    {
        TaskEntry { name: name.to_owned(), status: TaskStatus::Running, log: String::new() }
    }
}

/// What a background task reports back to the interface.
pub enum Msg {
    BulkStatus(Vec<(String, bool)>),
    OpDone { idx: usize, new_status: Status, log: String },
    TelemetryBulkStatus(Vec<(TelemetryId, TelemetryStatus)>),
    TelemetryOpDone { id: TelemetryId, new_status: TelemetryStatus, log: String },
    UpdateStatus(UpdateState),
    SysInfoReady(SysInfo),
    MemInfoReady(MemInfo),
    MemOpDone { id: MemOp, log: String },
    CleanupSizesReady(Vec<(CleanupId, CleanupSize)>),
    CleanupOpDone { id: CleanupId, new_size: CleanupSize, log: String },
    ServiceBulkStatus(Vec<(ServiceId, ServiceStatus)>),
    ServiceOpDone { id: ServiceId, new_status: ServiceStatus, log: String },
    TaskUpdate(TaskEntry),
}

proof fn lemma_cleanup_key_nonempty(id: CleanupId)
    ensures
        id.spec_key().len() > 0,
{
    reveal_strlit("recyclebin");
    reveal_strlit("usertemp");
    reveal_strlit("systemtemp");
    reveal_strlit("crashdumps");
    reveal_strlit("wer");
    reveal_strlit("minidump");
    reveal_strlit("wuadl");
    reveal_strlit("catroot2");
    reveal_strlit("deliveryopt");
    reveal_strlit("windowsold");
    reveal_strlit("upgradeleft");
    reveal_strlit("lastgood");
    reveal_strlit("prefetch");
    reveal_strlit("fontcache");
    reveal_strlit("iconcache");
    reveal_strlit("thumbcache");
    reveal_strlit("dnscache");
    reveal_strlit("storecache");
    reveal_strlit("searchcache");
    reveal_strlit("cbsdism");
    reveal_strlit("printq");
    reveal_strlit("recent");
    reveal_strlit("edgecache");
    reveal_strlit("chromecache");
    reveal_strlit("firefoxcache");
    reveal_strlit("winsxs");
    reveal_strlit("restorepts");
    reveal_strlit("hiberfil");
}

} // verus!
