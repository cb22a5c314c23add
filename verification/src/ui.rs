//! What the pages show, decided apart from the drawing: the label, colour
//! and state of each entry's button, what a click on it asks for, the
//! status and size labels, and the lines of the home, memory, cleanup and
//! settings pages.  The program draws these with egui.

use vstd::prelude::*;

use crate::text::{chars_of, push_decimal, push_str, trim_bounds, trim};
use crate::types::{
    Card, CleanupItem, CleanupSize, MemInfo, NavItem, Page, ServiceItem, ServiceStatus, Status, SysInfo,
    TaskStatus, TelemetryItem, TelemetryStatus, UpdateState,
};
use crate::update::{format_bytes, spec_format_bytes};
use crate::uwp::XBOX_GAME_BAR_PACKAGE;

verus! {

/// A colour as red, green and blue.
#[derive(Clone, Copy, Debug, PartialEq, Eq, Structural)]
pub struct Rgb {
    pub r: u8,
    pub g: u8,
    pub b: u8,
}

pub open spec fn rgb(r: u8, g: u8, b: u8) -> Rgb {
    Rgb { r, g, b }
}

/// An action button: its label, fill colour and whether it can be pressed.
pub struct ButtonLook {
    pub label: &'static str,
    pub fill: Rgb,
    pub enabled: bool,
}

/// A status label and its colour.
pub struct LabelLook {
    pub text: &'static str,
    pub color: Rgb,
}

pub open spec fn busy_fill() -> Rgb {
    rgb(72, 72, 88)
}

pub open spec fn danger_fill() -> Rgb {
    rgb(170, 60, 60)
}

pub open spec fn safe_fill() -> Rgb {
    rgb(56, 130, 90)
}

pub open spec fn idle_fill() -> Rgb {
    rgb(60, 60, 70)
}

fn look(label: &'static str, fill: Rgb, enabled: bool) -> (r: ButtonLook)
    ensures
        r.label == label,
        r.fill == fill,
        r.enabled == enabled,
{
    ButtonLook { label, fill, enabled }
}

// ---------------------------------------------------------------------------
// UWP cards
// ---------------------------------------------------------------------------

/// What a click on a card's button asks for.
#[derive(Clone, Copy, Debug, PartialEq, Eq, Structural)]
pub enum CardAction {
    NoAction,
    Remove,
    Restore,
}

/// A card's button: `...` while busy; remove an installed package and
/// restore a missing one (for the Game Bar: switch it off and on); nothing
/// to press while the status is unknown.
pub open spec fn spec_card_button(status: Status, busy: bool, game_bar: bool) -> (Seq<char>, Rgb, bool) {
    if busy {
        ("..."@, busy_fill(), false)
    } else {
        match status {
            Status::Installed => (
                if game_bar {
                    "Отключить"@
                } else {
                    "Удалить"@
                },
                danger_fill(),
                true,
            ),
            Status::NotInstalled => (
                if game_bar {
                    "Включить"@
                } else {
                    "Восстановить"@
                },
                safe_fill(),
                true,
            ),
            Status::Unknown => ("Проверка..."@, idle_fill(), false),
        }
    }
}

pub fn card_button(card: &Card) -> (r: ButtonLook)
    ensures
        (r.label@, r.fill, r.enabled) == spec_card_button(
            card.status,
            card.busy,
            card.package@ == XBOX_GAME_BAR_PACKAGE@,
        ),
{
    let game_bar = crate::text::str_eq(card.package.as_str(), XBOX_GAME_BAR_PACKAGE);
    if card.busy {
        return look("...", Rgb { r: 72, g: 72, b: 88 }, false);
    }
    match card.status {
        Status::Installed => look(
            if game_bar {
                "Отключить"
            } else {
                "Удалить"
            },
            Rgb { r: 170, g: 60, b: 60 },
            true,
        ),
        Status::NotInstalled => look(
            if game_bar {
                "Включить"
            } else {
                "Восстановить"
            },
            Rgb { r: 56, g: 130, b: 90 },
            true,
        ),
        Status::Unknown => look("Проверка...", Rgb { r: 60, g: 60, b: 70 }, false),
    }
}

/// The action a click on a card's button asks for.
pub fn card_click_action(status: Status) -> (r: CardAction)
    ensures
        r == (match status {
            Status::Installed => CardAction::Remove,
            Status::NotInstalled => CardAction::Restore,
            Status::Unknown => CardAction::NoAction,
        }),
{
    match status {
        Status::Installed => CardAction::Remove,
        Status::NotInstalled => CardAction::Restore,
        Status::Unknown => CardAction::NoAction,
    }
}

// ---------------------------------------------------------------------------
// Telemetry entries
// ---------------------------------------------------------------------------

/// What a click on a telemetry entry's button asks for.
#[derive(Clone, Copy, Debug, PartialEq, Eq, Structural)]
pub enum TelemetryAction {
    NoAction,
    Disable,
    Enable,
}

pub open spec fn spec_telemetry_button(status: TelemetryStatus, busy: bool) -> (Seq<char>, Rgb, bool) {
    if busy {
        ("..."@, busy_fill(), false)
    } else {
        match status {
            TelemetryStatus::Enabled => ("Отключить"@, danger_fill(), true),
            TelemetryStatus::Disabled => ("Включить"@, safe_fill(), true),
            TelemetryStatus::Unknown => ("Проверка..."@, idle_fill(), false),
        }
    }
}

/// A telemetry entry's button: switch off what is on and on what is off.
pub fn telemetry_button(item: &TelemetryItem) -> (r: ButtonLook)
    ensures
        (r.label@, r.fill, r.enabled) == spec_telemetry_button(item.status, item.busy),
{
    if item.busy {
        return look("...", Rgb { r: 72, g: 72, b: 88 }, false);
    }
    match item.status {
        TelemetryStatus::Enabled => look("Отключить", Rgb { r: 170, g: 60, b: 60 }, true),
        TelemetryStatus::Disabled => look("Включить", Rgb { r: 56, g: 130, b: 90 }, true),
        TelemetryStatus::Unknown => look("Проверка...", Rgb { r: 60, g: 60, b: 70 }, false),
    }
}

pub fn telemetry_click_action(status: TelemetryStatus) -> (r: TelemetryAction)
    ensures
        r == (match status {
            TelemetryStatus::Enabled => TelemetryAction::Disable,
            TelemetryStatus::Disabled => TelemetryAction::Enable,
            TelemetryStatus::Unknown => TelemetryAction::NoAction,
        }),
{
    match status {
        TelemetryStatus::Enabled => TelemetryAction::Disable,
        TelemetryStatus::Disabled => TelemetryAction::Enable,
        TelemetryStatus::Unknown => TelemetryAction::NoAction,
    }
}

/// The status label of a telemetry entry.
pub fn telemetry_status_label(status: TelemetryStatus) -> (r: LabelLook)
    ensures
        (r.text@, r.color) == (match status {
            TelemetryStatus::Enabled => ("Включена"@, rgb(220, 120, 120)),
            TelemetryStatus::Disabled => ("Отключена"@, rgb(120, 200, 140)),
            TelemetryStatus::Unknown => ("Проверяется..."@, rgb(170, 170, 170)),
        }),
{
    match status {
        TelemetryStatus::Enabled => LabelLook { text: "Включена", color: Rgb { r: 220, g: 120, b: 120 } },
        TelemetryStatus::Disabled => LabelLook {
            text: "Отключена",
            color: Rgb { r: 120, g: 200, b: 140 },
        },
        TelemetryStatus::Unknown => LabelLook {
            text: "Проверяется...",
            color: Rgb { r: 170, g: 170, b: 170 },
        },
    }
}

// ---------------------------------------------------------------------------
// Services
// ---------------------------------------------------------------------------

/// What a click on a service's button asks for.
#[derive(Clone, Copy, Debug, PartialEq, Eq, Structural)]
pub enum ServiceAction {
    NoAction,
    Disable,
    Enable,
}

pub open spec fn spec_service_button(status: ServiceStatus, busy: bool) -> (Seq<char>, Rgb, bool) {
    if busy {
        ("..."@, busy_fill(), false)
    } else {
        match status {
            ServiceStatus::Running => ("Отключить"@, danger_fill(), true),
            ServiceStatus::Stopped => ("Включить"@, safe_fill(), true),
            ServiceStatus::Disabled => ("Включить"@, safe_fill(), true),
            ServiceStatus::Unknown => ("Проверка..."@, idle_fill(), false),
        }
    }
}

/// A service's button: switch off a running service, on a stopped or
/// disabled one.
pub fn service_button(item: &ServiceItem) -> (r: ButtonLook)
    ensures
        (r.label@, r.fill, r.enabled) == spec_service_button(item.status, item.busy),
{
    if item.busy {
        return look("...", Rgb { r: 72, g: 72, b: 88 }, false);
    }
    match item.status {
        ServiceStatus::Running => look("Отключить", Rgb { r: 170, g: 60, b: 60 }, true),
        ServiceStatus::Stopped => look("Включить", Rgb { r: 56, g: 130, b: 90 }, true),
        ServiceStatus::Disabled => look("Включить", Rgb { r: 56, g: 130, b: 90 }, true),
        ServiceStatus::Unknown => look("Проверка...", Rgb { r: 60, g: 60, b: 70 }, false),
    }
}

pub fn service_click_action(status: ServiceStatus) -> (r: ServiceAction)
    ensures
        r == (match status {
            ServiceStatus::Running => ServiceAction::Disable,
            ServiceStatus::Stopped => ServiceAction::Enable,
            ServiceStatus::Disabled => ServiceAction::Enable,
            ServiceStatus::Unknown => ServiceAction::NoAction,
        }),
{
    match status {
        ServiceStatus::Running => ServiceAction::Disable,
        ServiceStatus::Stopped | ServiceStatus::Disabled => ServiceAction::Enable,
        ServiceStatus::Unknown => ServiceAction::NoAction,
    }
}

/// The status label of a service.
pub fn service_status_label(status: ServiceStatus) -> (r: LabelLook)
    ensures
        (r.text@, r.color) == (match status {
            ServiceStatus::Running => ("Запущена"@, rgb(120, 200, 140)),
            ServiceStatus::Stopped => ("Остановлена"@, rgb(220, 180, 100)),
            ServiceStatus::Disabled => ("Отключена"@, rgb(140, 200, 240)),
            ServiceStatus::Unknown => ("Проверяется..."@, rgb(170, 170, 170)),
        }),
{
    match status {
        ServiceStatus::Running => LabelLook { text: "Запущена", color: Rgb { r: 120, g: 200, b: 140 } },
        ServiceStatus::Stopped => LabelLook {
            text: "Остановлена",
            color: Rgb { r: 220, g: 180, b: 100 },
        },
        ServiceStatus::Disabled => LabelLook {
            text: "Отключена",
            color: Rgb { r: 140, g: 200, b: 240 },
        },
        ServiceStatus::Unknown => LabelLook {
            text: "Проверяется...",
            color: Rgb { r: 170, g: 170, b: 170 },
        },
    }
}

// ---------------------------------------------------------------------------
// Cleanup categories
// ---------------------------------------------------------------------------

/// A category's button: `...` while busy, `Пусто` and disabled when there
/// is nothing to clear, otherwise `Выполнить` for an irreversible and
/// `Очистить` for an ordinary category.
pub open spec fn spec_cleanup_button(size: CleanupSize, danger: bool, busy: bool) -> (Seq<char>, Rgb, bool) {
    if busy {
        ("..."@, busy_fill(), false)
    } else if size == CleanupSize::Bytes(0) {
        ("Пусто"@, idle_fill(), false)
    } else if danger {
        ("Выполнить"@, rgb(170, 70, 60), true)
    } else {
        ("Очистить"@, rgb(170, 110, 40), true)
    }
}

pub fn cleanup_button(item: &CleanupItem) -> (r: ButtonLook)
    ensures
        (r.label@, r.fill, r.enabled) == spec_cleanup_button(item.size, item.danger, item.busy),
{
    if item.busy {
        return look("...", Rgb { r: 72, g: 72, b: 88 }, false);
    }
    if item.size == CleanupSize::Bytes(0) {
        return look("Пусто", Rgb { r: 60, g: 60, b: 70 }, false);
    }
    if item.danger {
        look("Выполнить", Rgb { r: 170, g: 70, b: 60 }, true)
    } else {
        look("Очистить", Rgb { r: 170, g: 110, b: 40 }, true)
    }
}

/// The size label of a category.
pub open spec fn spec_cleanup_size_label(size: CleanupSize) -> Seq<char> {
    match size {
        CleanupSize::Unknown => "• подсчёт..."@,
        CleanupSize::NotApplicable => "• системная операция"@,
        CleanupSize::Bytes(n) => "• "@ + spec_format_bytes(n),
    }
}

pub fn cleanup_size_label(size: CleanupSize) -> (r: String)
    ensures
        r@ == spec_cleanup_size_label(size),
{
    let mut s = String::new();
    match size {
        CleanupSize::Unknown => push_str(&mut s, "• подсчёт..."),
        CleanupSize::NotApplicable => push_str(&mut s, "• системная операция"),
        CleanupSize::Bytes(n) => {
            push_str(&mut s, "• ");
            let b = format_bytes(n);
            push_str(&mut s, b.as_str());
        },
    }
    s
}

/// The colour of a category's size label: dim for nothing to clear, blue
/// for a byte count, grey otherwise.
pub fn cleanup_size_color(size: CleanupSize) -> (r: Rgb)
    ensures
        r == (match size {
            CleanupSize::Bytes(n) => if n == 0 {
                rgb(120, 120, 120)
            } else {
                rgb(140, 200, 240)
            },
            _ => rgb(150, 150, 150),
        }),
{
    match size {
        CleanupSize::Bytes(n) => if n == 0 {
            Rgb { r: 120, g: 120, b: 120 }
        } else {
            Rgb { r: 140, g: 200, b: 240 }
        },
        _ => Rgb { r: 150, g: 150, b: 150 },
    }
}

/// The bytes of a category, zero where no byte count is known.
pub open spec fn known_bytes(size: CleanupSize) -> nat {
    match size {
        CleanupSize::Bytes(n) => n as nat,
        _ => 0,
    }
}

/// The bytes of all categories with a known count.
pub open spec fn total_known(items: Seq<CleanupItem>) -> nat
    decreases items.len(),
{
    if items.len() == 0 {
        0
    } else {
        total_known(items.drop_last()) + known_bytes(items.last().size)
    }
}

/// The total counts each category once with its known byte count: no
/// categories make 0, and one more category adds its count where it is
/// known and nothing where it is not.
pub proof fn lemma_total_known_law(items: Seq<CleanupItem>, item: CleanupItem)
    ensures
        total_known(Seq::<CleanupItem>::empty()) == 0,
        total_known(items.push(item)) == total_known(items) + match item.size {
            CleanupSize::Bytes(n) => n as nat,
            _ => 0nat,
        },
{
    assert(items.push(item).drop_last() =~= items);
}

/// The total of two lists of categories is the sum of their totals.
pub proof fn lemma_total_known_concat(a: Seq<CleanupItem>, b: Seq<CleanupItem>)
    ensures
        total_known(a + b) == total_known(a) + total_known(b),
    decreases b.len(),
{
    if b.len() == 0 {
        assert(a + b =~= a);
    } else {
        lemma_total_known_concat(a, b.drop_last());
        assert((a + b).drop_last() =~= a + b.drop_last());
        assert((a + b).last() == b.last());
    }
}

proof fn lemma_total_known_prefix(items: Seq<CleanupItem>, k: int)
    requires
        0 <= k <= items.len(),
    ensures
        total_known(items.take(k)) <= total_known(items),
    decreases items.len(),
{
    if k < items.len() {
        assert(items.drop_last().take(k) == items.take(k));
        lemma_total_known_prefix(items.drop_last(), k);
    } else {
        assert(items.take(k) == items);
    }
}

/// The sum of the known sizes, shown above the categories.
pub fn total_known_bytes(items: &[CleanupItem]) -> (r: u64)
    requires
        total_known(items@) <= u64::MAX,
    ensures
        r == total_known(items@),
{
    let mut sum: u64 = 0;
    let mut k: usize = 0;
    while k < items.len()
        invariant
            k <= items@.len(),
            sum == total_known(items@.take(k as int)),
            total_known(items@) <= u64::MAX,
        decreases items.len() - k,
    {
        proof {
            assert(items@.take(k + 1).drop_last() == items@.take(k as int));
            assert(items@.take(k + 1).last() == items@[k as int]);
            lemma_total_known_prefix(items@, k + 1);
        }
        let add = match items[k].size {
            CleanupSize::Bytes(n) => n,
            _ => 0,
        };
        sum = sum + add;
        k = k + 1;
    }
    proof {
        assert(items@.take(items@.len() as int) == items@);
    }
    sum
}

/// The line with the total: `Всего к очистке: ≈ <size>`.
pub fn total_line(total: u64) -> (r: String)
    ensures
        r@ == "Всего к очистке: ≈ "@ + spec_format_bytes(total),
{
    let mut s = String::new();
    push_str(&mut s, "Всего к очистке: ≈ ");
    let b = format_bytes(total);
    push_str(&mut s, b.as_str());
    s
}

// ---------------------------------------------------------------------------
// Memory page
// ---------------------------------------------------------------------------

/// Memory in use: total minus available, and zero where available exceeds
/// total.
pub fn mem_used(info: &MemInfo) -> (r: u64)
    ensures
        r == (if info.total_bytes >= info.avail_bytes {
            info.total_bytes - info.avail_bytes
        } else {
            0
        }),
{
    if info.total_bytes >= info.avail_bytes {
        info.total_bytes - info.avail_bytes
    } else {
        0
    }
}

/// The `Используется` row: the used size and the load in percent.
pub fn mem_used_line(info: &MemInfo) -> (r: String)
    ensures
        r@ == spec_format_bytes(
            if info.total_bytes >= info.avail_bytes {
                (info.total_bytes - info.avail_bytes) as u64
            } else {
                0
            },
        ) + "  ("@ + crate::text::decimal(info.memory_load as nat) + "%)"@,
{
    let used = mem_used(info);
    let b = format_bytes(used);
    let mut s = String::new();
    push_str(&mut s, b.as_str());
    push_str(&mut s, "  (");
    push_decimal(&mut s, info.memory_load as u64);
    push_str(&mut s, "%)");
    s
}

/// The button of a memory operation: `...` and disabled while one runs.
pub fn mem_op_button(busy: bool) -> (r: ButtonLook)
    ensures
        r.label@ == (if busy {
            "..."@
        } else {
            "Выполнить"@
        }),
        r.fill == (if busy {
            busy_fill()
        } else {
            rgb(170, 110, 40)
        }),
        r.enabled == !busy,
{
    if busy {
        look("...", Rgb { r: 72, g: 72, b: 88 }, false)
    } else {
        look("Выполнить", Rgb { r: 170, g: 110, b: 40 }, true)
    }
}

/// Whether the memory page refreshes its figures: when none were ever
/// asked for, or at least three seconds ago.
pub fn mem_refresh_due(seconds_since_refresh: Option<u64>) -> (r: bool)
    ensures
        r == (match seconds_since_refresh {
            None => true,
            Some(s) => s >= 3,
        }),
{
    match seconds_since_refresh {
        None => true,
        Some(s) => s >= 3,
    }
}

// ---------------------------------------------------------------------------
// Home page
// ---------------------------------------------------------------------------

/// The operating system row: name, `(build N)` when the build is known, and
/// `, <architecture>` when that is known.
pub open spec fn spec_os_line(os: Seq<char>, build: Seq<char>, arch: Seq<char>) -> Seq<char> {
    let a = if build.len() == 0 {
        os
    } else {
        os + " (build "@ + build + ")"@
    };
    if arch.len() == 0 {
        a
    } else {
        a + ", "@ + arch
    }
}

pub fn os_line(info: &SysInfo) -> (r: String)
    ensures
        r@ == spec_os_line(info.os@, info.build@, info.arch@),
{
    let mut s = String::new();
    push_str(&mut s, info.os.as_str());
    if chars_of(info.build.as_str()).len() > 0 {
        push_str(&mut s, " (build ");
        push_str(&mut s, info.build.as_str());
        push_str(&mut s, ")");
    }
    if chars_of(info.arch.as_str()).len() > 0 {
        push_str(&mut s, ", ");
        push_str(&mut s, info.arch.as_str());
    }
    s
}

/// The user row: the name and whether it has administrator rights, where
/// that is known.
pub fn user_line(info: &SysInfo) -> (r: String)
    ensures
        r@ == (match info.is_admin {
            Some(true) => info.user@ + " (администратор)"@,
            Some(false) => info.user@ + " (без прав администратора)"@,
            None => info.user@,
        }),
{
    let mut s = String::new();
    push_str(&mut s, info.user.as_str());
    match info.is_admin {
        Some(true) => push_str(&mut s, " (администратор)"),
        Some(false) => push_str(&mut s, " (без прав администратора)"),
        None => {},
    }
    s
}

/// The memory row: `<N> ГБ`, or a dash where the size is unknown.
pub fn ram_line(info: &SysInfo) -> (r: String)
    ensures
        r@ == (if info.ram_gb@.len() == 0 {
            "—"@
        } else {
            info.ram_gb@ + " ГБ"@
        }),
{
    let mut s = String::new();
    if chars_of(info.ram_gb.as_str()).len() == 0 {
        push_str(&mut s, "—");
    } else {
        push_str(&mut s, info.ram_gb.as_str());
        push_str(&mut s, " ГБ");
    }
    s
}

/// The value a row shows: a dash for a blank value.
pub fn display_value(value: &str) -> (r: &str)
    ensures
        r@ == (if trim(value@).len() == 0 {
            "—"@
        } else {
            value@
        }),
{
    let v = chars_of(value);
    proof {
        assert(v@.subrange(0, v@.len() as int) == v@);
    }
    let (a, b) = trim_bounds(v.as_slice(), 0, v.len());
    if a == b {
        "—"
    } else {
        value
    }
}

/// The line that says where the update stands, and its colour.
pub open spec fn spec_update_status_text(state: UpdateState) -> Seq<char> {
    match state {
        UpdateState::Idle => "Готов к проверке обновлений."@,
        UpdateState::Checking => "Проверка обновлений..."@,
        UpdateState::Installing => "Загрузка и установка обновления..."@,
        UpdateState::UpToDate { latest } => "У вас актуальная версия (последняя на GitHub: "@
            + latest@ + ")."@,
        UpdateState::Available { latest } => "Доступна версия "@ + latest@ + "."@,
        UpdateState::Done { from, to } => "Обновлено: "@ + from@ + " → "@ + to@
            + ". Перезапустите приложение."@,
        UpdateState::Error(e) => e@,
    }
}

pub open spec fn spec_update_status_color(state: UpdateState) -> Rgb {
    match state {
        UpdateState::UpToDate { .. } => rgb(120, 200, 140),
        UpdateState::Available { .. } => rgb(220, 180, 100),
        UpdateState::Done { .. } => rgb(120, 200, 140),
        UpdateState::Error(_) => rgb(220, 120, 120),
        _ => rgb(170, 170, 170),
    }
}

pub fn update_status_text(state: &UpdateState) -> (r: (String, Rgb))
    ensures
        r.0@ == spec_update_status_text(*state),
        r.1 == spec_update_status_color(*state),
{
    let mut s = String::new();
    let gray = Rgb { r: 170, g: 170, b: 170 };
    match state {
        UpdateState::Idle => {
            push_str(&mut s, "Готов к проверке обновлений.");
            (s, gray)
        },
        UpdateState::Checking => {
            push_str(&mut s, "Проверка обновлений...");
            (s, gray)
        },
        UpdateState::Installing => {
            push_str(&mut s, "Загрузка и установка обновления...");
            (s, gray)
        },
        UpdateState::UpToDate { latest } => {
            push_str(&mut s, "У вас актуальная версия (последняя на GitHub: ");
            push_str(&mut s, latest.as_str());
            push_str(&mut s, ").");
            (s, Rgb { r: 120, g: 200, b: 140 })
        },
        UpdateState::Available { latest } => {
            push_str(&mut s, "Доступна версия ");
            push_str(&mut s, latest.as_str());
            push_str(&mut s, ".");
            (s, Rgb { r: 220, g: 180, b: 100 })
        },
        UpdateState::Done { from, to } => {
            push_str(&mut s, "Обновлено: ");
            push_str(&mut s, from.as_str());
            push_str(&mut s, " → ");
            push_str(&mut s, to.as_str());
            push_str(&mut s, ". Перезапустите приложение.");
            (s, Rgb { r: 120, g: 200, b: 140 })
        },
        UpdateState::Error(e) => {
            push_str(&mut s, e.as_str());
            (s, Rgb { r: 220, g: 120, b: 120 })
        },
    }
}

/// While a check or an install runs, the update buttons cannot be pressed.
pub fn update_busy(state: &UpdateState) -> (r: bool)
    ensures
        r == (state is Checking || state is Installing),
{
    match state {
        UpdateState::Checking | UpdateState::Installing => true,
        _ => false,
    }
}

/// The repository row: `github.com/<owner>/<name>`.
pub fn repo_line() -> (r: String)
    ensures
        r@ == "github.com/"@ + crate::update::REPO_OWNER@ + "/"@ + crate::update::REPO_NAME@,
{
    let mut s = String::new();
    push_str(&mut s, "github.com/");
    push_str(&mut s, crate::update::REPO_OWNER);
    push_str(&mut s, "/");
    push_str(&mut s, crate::update::REPO_NAME);
    s
}

// ---------------------------------------------------------------------------
// Navigation and settings page
// ---------------------------------------------------------------------------

/// The page behind the `i`-th entry of the navigation column.
pub fn nav_page(i: usize) -> (r: Page)
    ensures
        r == (if i == 1 {
            Page::Uwp
        } else if i == 2 {
            Page::Telemetry
        } else if i == 3 {
            Page::Memory
        } else if i == 4 {
            Page::Cleanup
        } else if i == 5 {
            Page::Services
        } else {
            Page::Home
        }),
{
    if i == 1 {
        Page::Uwp
    } else if i == 2 {
        Page::Telemetry
    } else if i == 3 {
        Page::Memory
    } else if i == 4 {
        Page::Cleanup
    } else if i == 5 {
        Page::Services
    } else {
        Page::Home
    }
}

/// The heading of a page.
pub fn page_title(page: Page) -> (r: &'static str)
    ensures
        r@ == (match page {
            Page::Home => "Главная"@,
            Page::Uwp => "UWP приложения"@,
            Page::Telemetry => "Телеметрия"@,
            Page::Memory => "ОЗУ"@,
            Page::Cleanup => "Очистка"@,
            Page::Services => "Службы"@,
            Page::Settings => "Настройки"@,
        }),
{
    match page {
        Page::Home => "Главная",
        Page::Uwp => "UWP приложения",
        Page::Telemetry => "Телеметрия",
        Page::Memory => "ОЗУ",
        Page::Cleanup => "Очистка",
        Page::Services => "Службы",
        Page::Settings => "Настройки",
    }
}

/// The pages marked as beta.
pub fn page_is_beta(page: Page) -> (r: bool)
    ensures
        r == (page == Page::Memory || page == Page::Cleanup || page == Page::Services),
{
    match page {
        Page::Memory | Page::Cleanup | Page::Services => true,
        _ => false,
    }
}

/// The status label of a task on the settings page.
pub fn task_status_label(status: TaskStatus) -> (r: LabelLook)
    ensures
        (r.text@, r.color) == (match status {
            TaskStatus::Running => ("Выполняется"@, rgb(220, 180, 100)),
            TaskStatus::Done => ("Готово"@, rgb(120, 200, 140)),
            TaskStatus::Failed => ("Ошибка"@, rgb(220, 120, 120)),
        }),
{
    match status {
        TaskStatus::Running => LabelLook { text: "Выполняется", color: Rgb { r: 220, g: 180, b: 100 } },
        TaskStatus::Done => LabelLook { text: "Готово", color: Rgb { r: 120, g: 200, b: 140 } },
        TaskStatus::Failed => LabelLook { text: "Ошибка", color: Rgb { r: 220, g: 120, b: 120 } },
    }
}

/// The entries of the navigation column, in order: icon path, label and
/// whether the page is marked beta.
pub fn nav_items() -> (r: Vec<NavItem>)
    ensures
        r@.len() == 5,
        r@[0].label@ == "Главная"@ && !r@[0].beta,
        r@[1].label@ == "UWP приложения"@ && !r@[1].beta,
        r@[2].label@ == "Телеметрия"@ && !r@[2].beta,
        r@[3].label@ == "ОЗУ"@ && r@[3].beta,
        r@[4].label@ == "Очистка"@ && r@[4].beta,
{
    let mut r: Vec<NavItem> = Vec::new();
    r.push(NavItem { icon: "icons/home.png", label: "Главная", beta: false });
    r.push(NavItem { icon: "icons/uwp.png", label: "UWP приложения", beta: false });
    r.push(NavItem { icon: "icons/telemetry.png", label: "Телеметрия", beta: false });
    r.push(NavItem { icon: "icons/memory.png", label: "ОЗУ", beta: true });
    r.push(NavItem { icon: "icons/cleanup.png", label: "Очистка", beta: true });
    r
}

/// The settings entry at the foot of the navigation column.
pub fn settings_nav_item() -> (r: NavItem)
    ensures
        r.label@ == "Настройки"@,
        !r.beta,
{
    NavItem { icon: "icons/settings.png", label: "Настройки", beta: false }
}

} // verus!
