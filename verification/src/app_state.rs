//! The state behind the interface and how it moves: the messages that
//! background work sends back are applied here, and every operation the user
//! starts is first checked and marked here.  The program draws the pages,
//! runs the work on threads and passes each message in.

use vstd::prelude::*;

use crate::cleanup::{cleanup_items, is_fresh_cleanup_item};
use crate::config::{AppSettings, Config};
use crate::logger::LogLevel;
use crate::services::{all_service_ids, is_fresh_service_item, service_items};
use crate::telemetry::{all_telemetry_ids, is_fresh_telemetry_item, telemetry_items};
use crate::text::{chars_of, push_str, str_eq, string_of_range, trim, trim_bounds};
use crate::types::all_cleanup_ids;
use crate::uwp::{is_fresh_card, uwp_apps, uwp_table};
use crate::types::{
    Card, CleanupId, CleanupItem, CleanupSize, MemInfo, MemOp, Msg, Page, ServiceId, ServiceItem,
    ServiceStatus, Status, SysInfo, TaskEntry, TelemetryId, TelemetryItem, TelemetryStatus,
    UpdateState,
};

verus! {

// ---------------------------------------------------------------------------
// Finding the first entry that matches
// ---------------------------------------------------------------------------

/// The index of the first element of `s` that satisfies `f`.
pub open spec fn find_first<A>(s: Seq<A>, f: spec_fn(A) -> bool) -> Option<int>
    decreases s.len(),
{
    if s.len() == 0 {
        None
    } else if f(s[0]) {
        Some(0)
    } else {
        match find_first(s.drop_first(), f) {
            Some(i) => Some(i + 1),
            None => None,
        }
    }
}

pub proof fn lemma_find_first<A>(s: Seq<A>, f: spec_fn(A) -> bool)
    ensures
        match find_first(s, f) {
            Some(i) => 0 <= i < s.len() && f(s[i]) && forall|j: int| 0 <= j < i ==> !f(s[j]),
            None => forall|j: int| 0 <= j < s.len() ==> !f(s[j]),
        },
    decreases s.len(),
{
    if s.len() > 0 && !f(s[0]) {
        lemma_find_first(s.drop_first(), f);
        match find_first(s.drop_first(), f) {
            Some(i) => {
                assert forall|j: int| 0 <= j < i + 1 implies !f(s[j]) by {
                    if j > 0 {
                        assert(s[j] == s.drop_first()[j - 1]);
                    }
                }
            },
            None => {
                assert forall|j: int| 0 <= j < s.len() implies !f(s[j]) by {
                    if j > 0 {
                        assert(s[j] == s.drop_first()[j - 1]);
                    }
                }
            },
        }
    }
}

pub proof fn lemma_find_first_at<A>(s: Seq<A>, f: spec_fn(A) -> bool, k: int)
    requires
        0 <= k < s.len(),
        f(s[k]),
        forall|j: int| 0 <= j < k ==> !f(s[j]),
    ensures
        find_first(s, f) == Some(k),
{
    lemma_find_first(s, f);
    match find_first(s, f) {
        Some(i) => {
            if i < k {
                assert(!f(s[i]));
            }
            if k < i {
                assert(!f(s[k]));
            }
        },
        None => {
            assert(!f(s[k]));
        },
    }
}

pub proof fn lemma_find_first_none<A>(s: Seq<A>, f: spec_fn(A) -> bool)
    requires
        forall|j: int| 0 <= j < s.len() ==> !f(s[j]),
    ensures
        find_first(s, f) is None,
{
    lemma_find_first(s, f);
    match find_first(s, f) {
        Some(i) => {
            assert(!f(s[i]));
        },
        None => {},
    }
}

// ---------------------------------------------------------------------------
// The state
// ---------------------------------------------------------------------------

/// Everything the pages show and the flags that keep operations from
/// starting twice.
pub struct AppState {
    pub view: Page,
    pub cards: Vec<Card>,
    pub telemetry: Vec<TelemetryItem>,
    pub settings: AppSettings,
    pub update_state: UpdateState,
    pub sys_info: Option<SysInfo>,
    pub config: Config,
    pub show_token_dialog: bool,
    pub token_input: String,
    pub token_dialog_error: Option<String>,
    pub mem_info: Option<MemInfo>,
    pub mem_busy: bool,
    pub mem_log: Option<String>,
    pub mem_refresh_in_flight: bool,
    pub cleanup_items: Vec<CleanupItem>,
    pub cleanup_refresh_in_flight: bool,
    pub cleanup_sizes_loaded: bool,
    pub services: Vec<ServiceItem>,
    pub tasks: Vec<TaskEntry>,
}

/// The model of `AppState`: its lists as sequences and its own texts as
/// character sequences.
pub struct AppStateView {
    pub view: Page,
    pub cards: Seq<Card>,
    pub telemetry: Seq<TelemetryItem>,
    pub settings: AppSettings,
    pub update_state: UpdateState,
    pub sys_info: Option<SysInfo>,
    pub config: Option<Seq<char>>,
    pub show_token_dialog: bool,
    pub token_input: Seq<char>,
    pub token_dialog_error: Option<Seq<char>>,
    pub mem_info: Option<MemInfo>,
    pub mem_busy: bool,
    pub mem_log: Option<Seq<char>>,
    pub mem_refresh_in_flight: bool,
    pub cleanup_items: Seq<CleanupItem>,
    pub cleanup_refresh_in_flight: bool,
    pub cleanup_sizes_loaded: bool,
    pub services: Seq<ServiceItem>,
    pub tasks: Seq<TaskEntry>,
}

pub open spec fn opt_seq(o: Option<String>) -> Option<Seq<char>> {
    match o {
        Some(s) => Some(s@),
        None => None,
    }
}

impl View for AppState {
    type V = AppStateView;

    open spec fn view(&self) -> AppStateView {
        AppStateView {
            view: self.view,
            cards: self.cards@,
            telemetry: self.telemetry@,
            settings: self.settings,
            update_state: self.update_state,
            sys_info: self.sys_info,
            config: self.config@,
            show_token_dialog: self.show_token_dialog,
            token_input: self.token_input@,
            token_dialog_error: opt_seq(self.token_dialog_error),
            mem_info: self.mem_info,
            mem_busy: self.mem_busy,
            mem_log: opt_seq(self.mem_log),
            mem_refresh_in_flight: self.mem_refresh_in_flight,
            cleanup_items: self.cleanup_items@,
            cleanup_refresh_in_flight: self.cleanup_refresh_in_flight,
            cleanup_sizes_loaded: self.cleanup_sizes_loaded,
            services: self.services@,
            tasks: self.tasks@,
        }
    }
}

// ---------------------------------------------------------------------------
// Applying messages
// ---------------------------------------------------------------------------

pub open spec fn card_with_package(pkg: Seq<char>) -> spec_fn(Card) -> bool {
    |c: Card| c.package@ == pkg
}

pub open spec fn telemetry_with_id(id: TelemetryId) -> spec_fn(TelemetryItem) -> bool {
    |t: TelemetryItem| t.id == id
}

pub open spec fn cleanup_with_id(id: CleanupId) -> spec_fn(CleanupItem) -> bool {
    |c: CleanupItem| c.id == id
}

pub open spec fn service_with_id(id: ServiceId) -> spec_fn(ServiceItem) -> bool {
    |s: ServiceItem| s.id == id
}

pub open spec fn task_with_name(name: Seq<char>) -> spec_fn(TaskEntry) -> bool {
    |t: TaskEntry| t.name@ == name
}

/// One `(package, installed)` report applied to the cards: the first card
/// of that package takes the status.
pub open spec fn bulk_status_step(cards: Seq<Card>, entry: (String, bool)) -> Seq<Card> {
    match find_first(cards, card_with_package(entry.0@)) {
        Some(i) => cards.update(
            i,
            Card {
                status: if entry.1 {
                    Status::Installed
                } else {
                    Status::NotInstalled
                },
                ..cards[i]
            },
        ),
        None => cards,
    }
}

pub open spec fn bulk_status_fold(cards: Seq<Card>, list: Seq<(String, bool)>) -> Seq<Card>
    decreases list.len(),
{
    if list.len() == 0 {
        cards
    } else {
        bulk_status_fold(bulk_status_step(cards, list[0]), list.drop_first())
    }
}

pub open spec fn telemetry_status_step(
    items: Seq<TelemetryItem>,
    entry: (TelemetryId, TelemetryStatus),
) -> Seq<TelemetryItem> {
    match find_first(items, telemetry_with_id(entry.0)) {
        Some(i) => items.update(i, TelemetryItem { status: entry.1, ..items[i] }),
        None => items,
    }
}

pub open spec fn telemetry_status_fold(
    items: Seq<TelemetryItem>,
    list: Seq<(TelemetryId, TelemetryStatus)>,
) -> Seq<TelemetryItem>
    decreases list.len(),
{
    if list.len() == 0 {
        items
    } else {
        telemetry_status_fold(telemetry_status_step(items, list[0]), list.drop_first())
    }
}

pub open spec fn cleanup_size_step(
    items: Seq<CleanupItem>,
    entry: (CleanupId, CleanupSize),
) -> Seq<CleanupItem> {
    match find_first(items, cleanup_with_id(entry.0)) {
        Some(i) => items.update(i, CleanupItem { size: entry.1, ..items[i] }),
        None => items,
    }
}

pub open spec fn cleanup_size_fold(
    items: Seq<CleanupItem>,
    list: Seq<(CleanupId, CleanupSize)>,
) -> Seq<CleanupItem>
    decreases list.len(),
{
    if list.len() == 0 {
        items
    } else {
        cleanup_size_fold(cleanup_size_step(items, list[0]), list.drop_first())
    }
}

pub open spec fn service_status_step(
    items: Seq<ServiceItem>,
    entry: (ServiceId, ServiceStatus),
) -> Seq<ServiceItem> {
    match find_first(items, service_with_id(entry.0)) {
        Some(i) => items.update(i, ServiceItem { status: entry.1, ..items[i] }),
        None => items,
    }
}

pub open spec fn service_status_fold(
    items: Seq<ServiceItem>,
    list: Seq<(ServiceId, ServiceStatus)>,
) -> Seq<ServiceItem>
    decreases list.len(),
{
    if list.len() == 0 {
        items
    } else {
        service_status_fold(service_status_step(items, list[0]), list.drop_first())
    }
}

/// A task report: an existing task of that name takes the new status and
/// log, a new name is added at the end.
pub open spec fn task_update(tasks: Seq<TaskEntry>, entry: TaskEntry) -> Seq<TaskEntry> {
    match find_first(tasks, task_with_name(entry.name@)) {
        Some(i) => tasks.update(i, TaskEntry { status: entry.status, log: entry.log, ..tasks[i] }),
        None => tasks.push(entry),
    }
}

/// What a message does to the state.
pub open spec fn spec_apply(s: AppStateView, msg: Msg) -> AppStateView {
    match msg {
        Msg::BulkStatus(list) => AppStateView { cards: bulk_status_fold(s.cards, list@), ..s },
        Msg::OpDone { idx, new_status, log } => if idx < s.cards.len() {
            AppStateView {
                cards: s.cards.update(
                    idx as int,
                    Card { status: new_status, busy: false, log: Some(log), ..s.cards[idx as int] },
                ),
                ..s
            }
        } else {
            s
        },
        Msg::TelemetryBulkStatus(list) => AppStateView {
            telemetry: telemetry_status_fold(s.telemetry, list@),
            ..s
        },
        Msg::TelemetryOpDone { id, new_status, log } => match find_first(
            s.telemetry,
            telemetry_with_id(id),
        ) {
            Some(i) => AppStateView {
                telemetry: s.telemetry.update(
                    i,
                    TelemetryItem {
                        status: new_status,
                        busy: false,
                        log: Some(log),
                        ..s.telemetry[i]
                    },
                ),
                ..s
            },
            None => s,
        },
        Msg::UpdateStatus(state) => AppStateView { update_state: state, ..s },
        Msg::SysInfoReady(info) => AppStateView { sys_info: Some(info), ..s },
        Msg::MemInfoReady(info) => AppStateView {
            mem_info: Some(info),
            mem_refresh_in_flight: false,
            ..s
        },
        Msg::MemOpDone { id, log } => AppStateView {
            mem_busy: false,
            mem_log: Some(id.spec_title() + ": "@ + log@),
            ..s
        },
        Msg::CleanupSizesReady(list) => AppStateView {
            cleanup_items: cleanup_size_fold(s.cleanup_items, list@),
            cleanup_refresh_in_flight: false,
            cleanup_sizes_loaded: true,
            ..s
        },
        Msg::CleanupOpDone { id, new_size, log } => match find_first(
            s.cleanup_items,
            cleanup_with_id(id),
        ) {
            Some(i) => AppStateView {
                cleanup_items: s.cleanup_items.update(
                    i,
                    CleanupItem {
                        busy: false,
                        log: Some(log),
                        size: new_size,
                        ..s.cleanup_items[i]
                    },
                ),
                ..s
            },
            None => s,
        },
        Msg::ServiceBulkStatus(list) => AppStateView {
            services: service_status_fold(s.services, list@),
            ..s
        },
        Msg::ServiceOpDone { id, new_status, log } => match find_first(
            s.services,
            service_with_id(id),
        ) {
            Some(i) => AppStateView {
                services: s.services.update(
                    i,
                    ServiceItem { status: new_status, busy: false, log: Some(log), ..s.services[i] },
                ),
                ..s
            },
            None => s,
        },
        Msg::TaskUpdate(entry) => AppStateView { tasks: task_update(s.tasks, entry), ..s },
    }
}


// ---------------------------------------------------------------------------
// Executable application of messages
// ---------------------------------------------------------------------------

fn find_card(items: &Vec<Card>, pkg: &str) -> (r: Option<usize>)
    ensures
        match r {
            Some(j) => find_first(items@, card_with_package(pkg@)) == Some(j as int),
            None => find_first(items@, card_with_package(pkg@)) is None,
        },
{
    let mut j: usize = 0;
    while j < items.len()
        invariant
            j <= items@.len(),
            forall|i: int| 0 <= i < j ==> !(card_with_package(pkg@))(#[trigger] items@[i]),
        decreases items.len() - j,
    {
        if str_eq(items[j].package.as_str(), pkg) {
            proof {
                lemma_find_first_at(items@, card_with_package(pkg@), j as int);
            }
            return Some(j);
        }
        j = j + 1;
    }
    proof {
        lemma_find_first_none(items@, card_with_package(pkg@));
    }
    None
}

fn find_telemetry(items: &Vec<TelemetryItem>, id: TelemetryId) -> (r: Option<usize>)
    ensures
        match r {
            Some(j) => find_first(items@, telemetry_with_id(id)) == Some(j as int),
            None => find_first(items@, telemetry_with_id(id)) is None,
        },
{
    let mut j: usize = 0;
    while j < items.len()
        invariant
            j <= items@.len(),
            forall|i: int| 0 <= i < j ==> !(telemetry_with_id(id))(#[trigger] items@[i]),
        decreases items.len() - j,
    {
        if items[j].id == id {
            proof {
                lemma_find_first_at(items@, telemetry_with_id(id), j as int);
            }
            return Some(j);
        }
        j = j + 1;
    }
    proof {
        lemma_find_first_none(items@, telemetry_with_id(id));
    }
    None
}

fn find_cleanup(items: &Vec<CleanupItem>, id: CleanupId) -> (r: Option<usize>)
    ensures
        match r {
            Some(j) => find_first(items@, cleanup_with_id(id)) == Some(j as int),
            None => find_first(items@, cleanup_with_id(id)) is None,
        },
{
    let mut j: usize = 0;
    while j < items.len()
        invariant
            j <= items@.len(),
            forall|i: int| 0 <= i < j ==> !(cleanup_with_id(id))(#[trigger] items@[i]),
        decreases items.len() - j,
    {
        if items[j].id == id {
            proof {
                lemma_find_first_at(items@, cleanup_with_id(id), j as int);
            }
            return Some(j);
        }
        j = j + 1;
    }
    proof {
        lemma_find_first_none(items@, cleanup_with_id(id));
    }
    None
}

fn find_service(items: &Vec<ServiceItem>, id: ServiceId) -> (r: Option<usize>)
    ensures
        match r {
            Some(j) => find_first(items@, service_with_id(id)) == Some(j as int),
            None => find_first(items@, service_with_id(id)) is None,
        },
{
    let mut j: usize = 0;
    while j < items.len()
        invariant
            j <= items@.len(),
            forall|i: int| 0 <= i < j ==> !(service_with_id(id))(#[trigger] items@[i]),
        decreases items.len() - j,
    {
        if items[j].id == id {
            proof {
                lemma_find_first_at(items@, service_with_id(id), j as int);
            }
            return Some(j);
        }
        j = j + 1;
    }
    proof {
        lemma_find_first_none(items@, service_with_id(id));
    }
    None
}

fn find_task(items: &Vec<TaskEntry>, name: &str) -> (r: Option<usize>)
    ensures
        match r {
            Some(j) => find_first(items@, task_with_name(name@)) == Some(j as int),
            None => find_first(items@, task_with_name(name@)) is None,
        },
{
    let mut j: usize = 0;
    while j < items.len()
        invariant
            j <= items@.len(),
            forall|i: int| 0 <= i < j ==> !(task_with_name(name@))(#[trigger] items@[i]),
        decreases items.len() - j,
    {
        if str_eq(items[j].name.as_str(), name) {
            proof {
                lemma_find_first_at(items@, task_with_name(name@), j as int);
            }
            return Some(j);
        }
        j = j + 1;
    }
    proof {
        lemma_find_first_none(items@, task_with_name(name@));
    }
    None
}

fn apply_bulk_status(items: &mut Vec<Card>, list: &Vec<(String, bool)>)
    ensures
        final(items)@ == bulk_status_fold(old(items)@, list@),
{
    let mut k: usize = 0;
    proof {
        assert(list@.skip(0) == list@);
    }
    while k < list.len()
        invariant
            k <= list@.len(),
            bulk_status_fold(old(items)@, list@) == bulk_status_fold(items@, list@.skip(k as int)),
        decreases list.len() - k,
    {
        proof {
            assert(list@.skip(k as int)[0] == list@[k as int]);
            assert(list@.skip(k as int).drop_first() == list@.skip(k + 1));
        }
        proof {
            lemma_find_first(items@, card_with_package(list@[k as int].0@));
        }
        let ghost before = items@;
        match find_card(items, list[k].0.as_str()) {
            Some(i) => {
                items[i].status = if list[k].1 {
                    Status::Installed
                } else {
                    Status::NotInstalled
                };
                proof {
                    assert(items@ =~= before.update(
                        i as int,
                        Card {
                            status: if list@[k as int].1 {
                                Status::Installed
                            } else {
                                Status::NotInstalled
                            },
                            ..before[i as int]
                        },
                    ));
                    assert(find_first(before, card_with_package(list@[k as int].0@)) == Some(i as int));
                    assert(items@ == bulk_status_step(before, list@[k as int]));
                }
            },
            None => {
                proof {
                    assert(items@ == bulk_status_step(before, list@[k as int]));
                }
            },
        }
        k = k + 1;
    }
    proof {
        assert(list@.skip(list@.len() as int) == Seq::<(String, bool)>::empty());
    }
}

fn apply_telemetry_status(items: &mut Vec<TelemetryItem>, list: &Vec<(TelemetryId, TelemetryStatus)>)
    ensures
        final(items)@ == telemetry_status_fold(old(items)@, list@),
{
    let mut k: usize = 0;
    proof {
        assert(list@.skip(0) == list@);
    }
    while k < list.len()
        invariant
            k <= list@.len(),
            telemetry_status_fold(old(items)@, list@) == telemetry_status_fold(items@, list@.skip(k as int)),
        decreases list.len() - k,
    {
        proof {
            assert(list@.skip(k as int)[0] == list@[k as int]);
            assert(list@.skip(k as int).drop_first() == list@.skip(k + 1));
        }
        proof {
            lemma_find_first(items@, telemetry_with_id(list@[k as int].0));
        }
        let ghost before = items@;
        match find_telemetry(items, list[k].0) {
            Some(i) => {
                items[i].status = list[k].1;
                proof {
                    assert(items@ =~= before.update(i as int, TelemetryItem { status: list@[k as int].1, ..before[i as int] }));
                    assert(find_first(before, telemetry_with_id(list@[k as int].0)) == Some(i as int));
                    assert(items@ == telemetry_status_step(before, list@[k as int]));
                }
            },
            None => {
                proof {
                    assert(items@ == telemetry_status_step(before, list@[k as int]));
                }
            },
        }
        k = k + 1;
    }
    proof {
        assert(list@.skip(list@.len() as int) == Seq::<(TelemetryId, TelemetryStatus)>::empty());
    }
}

fn apply_cleanup_sizes(items: &mut Vec<CleanupItem>, list: &Vec<(CleanupId, CleanupSize)>)
    ensures
        final(items)@ == cleanup_size_fold(old(items)@, list@),
{
    let mut k: usize = 0;
    proof {
        assert(list@.skip(0) == list@);
    }
    while k < list.len()
        invariant
            k <= list@.len(),
            cleanup_size_fold(old(items)@, list@) == cleanup_size_fold(items@, list@.skip(k as int)),
        decreases list.len() - k,
    {
        proof {
            assert(list@.skip(k as int)[0] == list@[k as int]);
            assert(list@.skip(k as int).drop_first() == list@.skip(k + 1));
        }
        proof {
            lemma_find_first(items@, cleanup_with_id(list@[k as int].0));
        }
        let ghost before = items@;
        match find_cleanup(items, list[k].0) {
            Some(i) => {
                items[i].size = list[k].1;
                proof {
                    assert(items@ =~= before.update(i as int, CleanupItem { size: list@[k as int].1, ..before[i as int] }));
                    assert(find_first(before, cleanup_with_id(list@[k as int].0)) == Some(i as int));
                    assert(items@ == cleanup_size_step(before, list@[k as int]));
                }
            },
            None => {
                proof {
                    assert(items@ == cleanup_size_step(before, list@[k as int]));
                }
            },
        }
        k = k + 1;
    }
    proof {
        assert(list@.skip(list@.len() as int) == Seq::<(CleanupId, CleanupSize)>::empty());
    }
}

fn apply_service_status(items: &mut Vec<ServiceItem>, list: &Vec<(ServiceId, ServiceStatus)>)
    ensures
        final(items)@ == service_status_fold(old(items)@, list@),
{
    let mut k: usize = 0;
    proof {
        assert(list@.skip(0) == list@);
    }
    while k < list.len()
        invariant
            k <= list@.len(),
            service_status_fold(old(items)@, list@) == service_status_fold(items@, list@.skip(k as int)),
        decreases list.len() - k,
    {
        proof {
            assert(list@.skip(k as int)[0] == list@[k as int]);
            assert(list@.skip(k as int).drop_first() == list@.skip(k + 1));
        }
        proof {
            lemma_find_first(items@, service_with_id(list@[k as int].0));
        }
        let ghost before = items@;
        match find_service(items, list[k].0) {
            Some(i) => {
                items[i].status = list[k].1;
                proof {
                    assert(items@ =~= before.update(i as int, ServiceItem { status: list@[k as int].1, ..before[i as int] }));
                    assert(find_first(before, service_with_id(list@[k as int].0)) == Some(i as int));
                    assert(items@ == service_status_step(before, list@[k as int]));
                }
            },
            None => {
                proof {
                    assert(items@ == service_status_step(before, list@[k as int]));
                }
            },
        }
        k = k + 1;
    }
    proof {
        assert(list@.skip(list@.len() as int) == Seq::<(ServiceId, ServiceStatus)>::empty());
    }
}

impl AppState {
    fn apply_op_done(&mut self, idx: usize, new_status: Status, log: String)
        ensures
            final(self)@ == spec_apply(old(self)@, Msg::OpDone { idx, new_status, log }),
    {
        if idx < self.cards.len() {
            let ghost before = self.cards@;
            let ghost l = log;
            self.cards[idx].status = new_status;
            self.cards[idx].busy = false;
            self.cards[idx].log = Some(log);
            proof {
                assert(self.cards@ =~= before.update(
                    idx as int,
                    Card { status: new_status, busy: false, log: Some(l), ..before[idx as int] },
                ));
            }
        }
    }

    fn apply_telemetry_done(&mut self, id: TelemetryId, new_status: TelemetryStatus, log: String)
        ensures
            final(self)@ == spec_apply(old(self)@, Msg::TelemetryOpDone { id, new_status, log }),
    {
        proof {
            lemma_find_first(self.telemetry@, telemetry_with_id(id));
        }
        match find_telemetry(&self.telemetry, id) {
            Some(i) => {
                let ghost before = self.telemetry@;
                let ghost l = log;
                self.telemetry[i].status = new_status;
                self.telemetry[i].busy = false;
                self.telemetry[i].log = Some(log);
                proof {
                    assert(self.telemetry@ =~= before.update(
                        i as int,
                        TelemetryItem {
                            status: new_status,
                            busy: false,
                            log: Some(l),
                            ..before[i as int]
                        },
                    ));
                }
            },
            None => {},
        }
    }

    fn apply_mem_op_done(&mut self, id: MemOp, log: String)
        ensures
            final(self)@ == spec_apply(old(self)@, Msg::MemOpDone { id, log }),
    {
        self.mem_busy = false;
        let mut s = String::new();
        push_str(&mut s, id.title());
        push_str(&mut s, ": ");
        push_str(&mut s, log.as_str());
        self.mem_log = Some(s);
    }

    fn apply_cleanup_done(&mut self, id: CleanupId, new_size: CleanupSize, log: String)
        ensures
            final(self)@ == spec_apply(old(self)@, Msg::CleanupOpDone { id, new_size, log }),
    {
        proof {
            lemma_find_first(self.cleanup_items@, cleanup_with_id(id));
        }
        match find_cleanup(&self.cleanup_items, id) {
            Some(i) => {
                let ghost before = self.cleanup_items@;
                let ghost l = log;
                self.cleanup_items[i].busy = false;
                self.cleanup_items[i].log = Some(log);
                self.cleanup_items[i].size = new_size;
                proof {
                    assert(self.cleanup_items@ =~= before.update(
                        i as int,
                        CleanupItem { busy: false, log: Some(l), size: new_size, ..before[i as int] },
                    ));
                }
            },
            None => {},
        }
    }

    fn apply_service_done(&mut self, id: ServiceId, new_status: ServiceStatus, log: String)
        ensures
            final(self)@ == spec_apply(old(self)@, Msg::ServiceOpDone { id, new_status, log }),
    {
        proof {
            lemma_find_first(self.services@, service_with_id(id));
        }
        match find_service(&self.services, id) {
            Some(i) => {
                let ghost before = self.services@;
                let ghost l = log;
                self.services[i].status = new_status;
                self.services[i].busy = false;
                self.services[i].log = Some(log);
                proof {
                    assert(self.services@ =~= before.update(
                        i as int,
                        ServiceItem {
                            status: new_status,
                            busy: false,
                            log: Some(l),
                            ..before[i as int]
                        },
                    ));
                }
            },
            None => {},
        }
    }

    fn apply_task_update(&mut self, entry: TaskEntry)
        ensures
            final(self)@ == spec_apply(old(self)@, Msg::TaskUpdate(entry)),
    {
        proof {
            lemma_find_first(self.tasks@, task_with_name(entry.name@));
        }
        match find_task(&self.tasks, entry.name.as_str()) {
            Some(i) => {
                let ghost before = self.tasks@;
                let ghost e = entry;
                self.tasks[i].status = entry.status;
                self.tasks[i].log = entry.log;
                proof {
                    assert(self.tasks@ =~= before.update(
                        i as int,
                        TaskEntry { status: e.status, log: e.log, ..before[i as int] },
                    ));
                }
            },
            None => {
                self.tasks.push(entry);
            },
        }
    }

    /// Applies one message from background work.
    pub fn apply(&mut self, msg: Msg)
        ensures
            final(self)@ == spec_apply(old(self)@, msg),
    {
        match msg {
            Msg::BulkStatus(list) => {
                apply_bulk_status(&mut self.cards, &list);
            },
            Msg::OpDone { idx, new_status, log } => {
                self.apply_op_done(idx, new_status, log);
            },
            Msg::TelemetryBulkStatus(list) => {
                apply_telemetry_status(&mut self.telemetry, &list);
            },
            Msg::TelemetryOpDone { id, new_status, log } => {
                self.apply_telemetry_done(id, new_status, log);
            },
            Msg::UpdateStatus(state) => {
                self.update_state = state;
            },
            Msg::SysInfoReady(info) => {
                self.sys_info = Some(info);
            },
            Msg::MemInfoReady(info) => {
                self.mem_info = Some(info);
                self.mem_refresh_in_flight = false;
            },
            Msg::MemOpDone { id, log } => {
                self.apply_mem_op_done(id, log);
            },
            Msg::CleanupSizesReady(list) => {
                apply_cleanup_sizes(&mut self.cleanup_items, &list);
                self.cleanup_refresh_in_flight = false;
                self.cleanup_sizes_loaded = true;
            },
            Msg::CleanupOpDone { id, new_size, log } => {
                self.apply_cleanup_done(id, new_size, log);
            },
            Msg::ServiceBulkStatus(list) => {
                apply_service_status(&mut self.services, &list);
            },
            Msg::ServiceOpDone { id, new_status, log } => {
                self.apply_service_done(id, new_status, log);
            },
            Msg::TaskUpdate(entry) => {
                self.apply_task_update(entry);
            },
        }
    }
}

// ---------------------------------------------------------------------------
// Starting operations
// ---------------------------------------------------------------------------

/// `after` is the card `before` marked busy with the log `log`.
pub open spec fn card_marked(before: Card, after: Card, log: Seq<char>) -> bool {
    &&& after.title == before.title
    &&& after.description == before.description
    &&& after.package == before.package
    &&& after.status == before.status
    &&& after.busy
    &&& after.log matches Some(l) && l@ == log
}

pub open spec fn telemetry_marked(before: TelemetryItem, after: TelemetryItem, log: Seq<char>) -> bool {
    &&& after.id == before.id
    &&& after.title == before.title
    &&& after.description == before.description
    &&& after.status == before.status
    &&& after.busy
    &&& after.log matches Some(l) && l@ == log
}

pub open spec fn cleanup_marked(before: CleanupItem, after: CleanupItem, log: Seq<char>) -> bool {
    &&& after.id == before.id
    &&& after.title == before.title
    &&& after.description == before.description
    &&& after.size == before.size
    &&& after.danger == before.danger
    &&& after.busy
    &&& after.log matches Some(l) && l@ == log
}

pub open spec fn service_marked(before: ServiceItem, after: ServiceItem, log: Seq<char>) -> bool {
    &&& after.id == before.id
    &&& after.title == before.title
    &&& after.description == before.description
    &&& after.status == before.status
    &&& after.busy
    &&& after.log matches Some(l) && l@ == log
}

/// `after` differs from `before` at most in entry `i`.
pub open spec fn same_but<A>(before: Seq<A>, after: Seq<A>, i: int) -> bool {
    &&& after.len() == before.len()
    &&& forall|j: int| 0 <= j < before.len() && j != i ==> after[j] == before[j]
}

/// Card `idx` exists and is idle, so an operation on it can start.
pub open spec fn can_start_card(cards: Seq<Card>, idx: usize) -> bool {
    idx < cards.len() && !cards[idx as int].busy
}

/// `after` is `before` with card `i` marked busy with log `log`.
pub open spec fn card_started(before: AppStateView, after: AppStateView, i: int, log: Seq<char>) -> bool {
    &&& card_marked(before.cards[i], after.cards[i], log)
    &&& same_but(before.cards, after.cards, i)
    &&& after == AppStateView { cards: after.cards, ..before }
}

/// The telemetry entry of `id` exists and is idle.
pub open spec fn can_start_telemetry(items: Seq<TelemetryItem>, id: TelemetryId) -> bool {
    find_first(items, telemetry_with_id(id)) matches Some(i) && !items[i].busy
}

/// `after` is `before` with the telemetry entry of `id` marked busy.
pub open spec fn telemetry_started(
    before: AppStateView,
    after: AppStateView,
    id: TelemetryId,
    log: Seq<char>,
) -> bool {
    &&& find_first(before.telemetry, telemetry_with_id(id)) matches Some(i) && telemetry_marked(
        before.telemetry[i],
        after.telemetry[i],
        log,
    ) && same_but(before.telemetry, after.telemetry, i)
    &&& after == AppStateView { telemetry: after.telemetry, ..before }
}

/// The cleanup category `id` exists and is idle.
pub open spec fn can_start_cleanup(items: Seq<CleanupItem>, id: CleanupId) -> bool {
    find_first(items, cleanup_with_id(id)) matches Some(i) && !items[i].busy
}

/// `after` is `before` with the category `id` marked busy.
pub open spec fn cleanup_started(
    before: AppStateView,
    after: AppStateView,
    id: CleanupId,
    log: Seq<char>,
) -> bool {
    &&& find_first(before.cleanup_items, cleanup_with_id(id)) matches Some(i) && cleanup_marked(
        before.cleanup_items[i],
        after.cleanup_items[i],
        log,
    ) && same_but(before.cleanup_items, after.cleanup_items, i)
    &&& after == AppStateView { cleanup_items: after.cleanup_items, ..before }
}

/// The service `id` exists and is idle.
pub open spec fn can_start_service(items: Seq<ServiceItem>, id: ServiceId) -> bool {
    find_first(items, service_with_id(id)) matches Some(i) && !items[i].busy
}

/// `after` is `before` with the service `id` marked busy.
pub open spec fn service_started(
    before: AppStateView,
    after: AppStateView,
    id: ServiceId,
    log: Seq<char>,
) -> bool {
    &&& find_first(before.services, service_with_id(id)) matches Some(i) && service_marked(
        before.services[i],
        after.services[i],
        log,
    ) && same_but(before.services, after.services, i)
    &&& after == AppStateView { services: after.services, ..before }
}

/// The log a card shows while its package is being removed.
pub open spec fn removing_log() -> Seq<char> {
    "Удаление..."@
}

/// The log a card shows while its package is being restored.
pub open spec fn restoring_log() -> Seq<char> {
    "Восстановление..."@
}

/// The log of an entry that is being switched off or on.
pub open spec fn switching_log(disable: bool) -> Seq<char> {
    if disable {
        "Отключение..."@
    } else {
        "Включение..."@
    }
}

pub open spec fn cleaning_log() -> Seq<char> {
    "Очистка..."@
}

impl AppState {
    fn mark_card(&mut self, idx: usize, log: &str) -> (r: Option<String>)
        ensures
            can_start_card(old(self).cards@, idx) ==> (r matches Some(p) && p@ == old(
                self,
            ).cards@[idx as int].package@),
            can_start_card(old(self).cards@, idx) ==> card_started(
                old(self)@,
                final(self)@,
                idx as int,
                log@,
            ),
            !can_start_card(old(self).cards@, idx) ==> (r is None && final(self)@ == old(self)@),
    {
        if idx >= self.cards.len() || self.cards[idx].busy {
            return None;
        }
        self.cards[idx].busy = true;
        self.cards[idx].log = Some(log.to_owned());
        Some(self.cards[idx].package.clone())
    }

    /// Marks card `idx` as being removed and hands out its package, unless
    /// there is no such card or it is busy already; then nothing changes.
    pub fn begin_remove(&mut self, idx: usize) -> (r: Option<String>)
        ensures
            can_start_card(old(self).cards@, idx) ==> (r matches Some(p) && p@ == old(
                self,
            ).cards@[idx as int].package@),
            can_start_card(old(self).cards@, idx) ==> card_started(
                old(self)@,
                final(self)@,
                idx as int,
                removing_log(),
            ),
            !can_start_card(old(self).cards@, idx) ==> (r is None && final(self)@ == old(self)@),
    {
        self.mark_card(idx, "Удаление...")
    }

    /// Marks card `idx` as being restored and hands out its package, unless
    /// there is no such card or it is busy already; then nothing changes.
    pub fn begin_restore(&mut self, idx: usize) -> (r: Option<String>)
        ensures
            can_start_card(old(self).cards@, idx) ==> (r matches Some(p) && p@ == old(
                self,
            ).cards@[idx as int].package@),
            can_start_card(old(self).cards@, idx) ==> card_started(
                old(self)@,
                final(self)@,
                idx as int,
                restoring_log(),
            ),
            !can_start_card(old(self).cards@, idx) ==> (r is None && final(self)@ == old(self)@),
    {
        self.mark_card(idx, "Восстановление...")
    }

    /// Starts switching the telemetry of `id` off (`disable`) or on, unless
    /// it is missing or busy; then nothing changes.
    pub fn begin_telemetry_op(&mut self, id: TelemetryId, disable: bool) -> (r: bool)
        ensures
            r == can_start_telemetry(old(self).telemetry@, id),
            r ==> telemetry_started(old(self)@, final(self)@, id, switching_log(disable)),
            !r ==> final(self)@ == old(self)@,
    {
        proof {
            lemma_find_first(self.telemetry@, telemetry_with_id(id));
        }
        let i = match find_telemetry(&self.telemetry, id) {
            Some(i) => i,
            None => {
                return false;
            },
        };
        if self.telemetry[i].busy {
            return false;
        }
        self.telemetry[i].busy = true;
        let log = if disable {
            "Отключение..."
        } else {
            "Включение..."
        };
        self.telemetry[i].log = Some(log.to_owned());
        true
    }

    /// Starts clearing the category `id`, unless it is missing or busy; then
    /// nothing changes.
    pub fn begin_cleanup_op(&mut self, id: CleanupId) -> (r: bool)
        ensures
            r == can_start_cleanup(old(self).cleanup_items@, id),
            r ==> cleanup_started(old(self)@, final(self)@, id, cleaning_log()),
            !r ==> final(self)@ == old(self)@,
    {
        proof {
            lemma_find_first(self.cleanup_items@, cleanup_with_id(id));
        }
        let i = match find_cleanup(&self.cleanup_items, id) {
            Some(i) => i,
            None => {
                return false;
            },
        };
        if self.cleanup_items[i].busy {
            return false;
        }
        self.cleanup_items[i].busy = true;
        self.cleanup_items[i].log = Some("Очистка...".to_owned());
        true
    }

    /// Starts switching the service `id` off (`disable`) or on, unless it is
    /// missing or busy; then nothing changes.
    pub fn begin_service_op(&mut self, id: ServiceId, disable: bool) -> (r: bool)
        ensures
            r == can_start_service(old(self).services@, id),
            r ==> service_started(old(self)@, final(self)@, id, switching_log(disable)),
            !r ==> final(self)@ == old(self)@,
    {
        proof {
            lemma_find_first(self.services@, service_with_id(id));
        }
        let i = match find_service(&self.services, id) {
            Some(i) => i,
            None => {
                return false;
            },
        };
        if self.services[i].busy {
            return false;
        }
        self.services[i].busy = true;
        let log = if disable {
            "Отключение..."
        } else {
            "Включение..."
        };
        self.services[i].log = Some(log.to_owned());
        true
    }

    /// Starts a refresh of the memory figures unless one is running.
    pub fn begin_mem_refresh(&mut self) -> (r: bool)
        ensures
            r == !old(self).mem_refresh_in_flight,
            final(self)@ == (AppStateView { mem_refresh_in_flight: true, ..old(self)@ }),
    {
        if self.mem_refresh_in_flight {
            return false;
        }
        self.mem_refresh_in_flight = true;
        true
    }

    /// Starts a memory operation unless one is running; the log then says
    /// which operation runs.
    pub fn begin_mem_op(&mut self, op: MemOp) -> (r: bool)
        ensures
            r == !old(self).mem_busy,
            r ==> final(self)@ == (AppStateView {
                mem_busy: true,
                mem_log: Some(op.spec_title() + ": выполняется..."@),
                ..old(self)@
            }),
            !r ==> final(self)@ == old(self)@,
    {
        if self.mem_busy {
            return false;
        }
        self.mem_busy = true;
        let mut s = String::new();
        push_str(&mut s, op.title());
        push_str(&mut s, ": выполняется...");
        self.mem_log = Some(s);
        true
    }

    /// Starts a count of the cleanup sizes unless one is running.
    pub fn begin_cleanup_refresh(&mut self) -> (r: bool)
        ensures
            r == !old(self).cleanup_refresh_in_flight,
            final(self)@ == (AppStateView { cleanup_refresh_in_flight: true, ..old(self)@ }),
    {
        if self.cleanup_refresh_in_flight {
            return false;
        }
        self.cleanup_refresh_in_flight = true;
        true
    }

    /// Whether opening the cleanup page starts a count: only before the
    /// first count has come back and while none runs.
    pub fn cleanup_refresh_due(&self) -> (r: bool)
        ensures
            r == (!self.cleanup_sizes_loaded && !self.cleanup_refresh_in_flight),
    {
        !self.cleanup_sizes_loaded && !self.cleanup_refresh_in_flight
    }

    /// Marks an update check as running.
    pub fn begin_update_check(&mut self)
        ensures
            final(self)@ == (AppStateView { update_state: UpdateState::Checking, ..old(self)@ }),
    {
        self.update_state = UpdateState::Checking;
    }

    /// Marks an update install as running.
    pub fn begin_update_install(&mut self)
        ensures
            final(self)@ == (AppStateView { update_state: UpdateState::Installing, ..old(self)@ }),
    {
        self.update_state = UpdateState::Installing;
    }
}

// ---------------------------------------------------------------------------
// Laws of the state
// ---------------------------------------------------------------------------

/// The same cards in the same order: only status, busy flag and log may
/// differ.
pub open spec fn same_cards(a: Seq<Card>, b: Seq<Card>) -> bool {
    &&& a.len() == b.len()
    &&& forall|i: int|
        0 <= i < a.len() ==> (#[trigger] b[i]).title == a[i].title && b[i].description
            == a[i].description && b[i].package == a[i].package
}

pub open spec fn same_telemetry(a: Seq<TelemetryItem>, b: Seq<TelemetryItem>) -> bool {
    &&& a.len() == b.len()
    &&& forall|i: int|
        0 <= i < a.len() ==> (#[trigger] b[i]).id == a[i].id && b[i].title == a[i].title
            && b[i].description == a[i].description
}

pub open spec fn same_cleanup(a: Seq<CleanupItem>, b: Seq<CleanupItem>) -> bool {
    &&& a.len() == b.len()
    &&& forall|i: int|
        0 <= i < a.len() ==> (#[trigger] b[i]).id == a[i].id && b[i].title == a[i].title
            && b[i].description == a[i].description && b[i].danger == a[i].danger
}

pub open spec fn same_services(a: Seq<ServiceItem>, b: Seq<ServiceItem>) -> bool {
    &&& a.len() == b.len()
    &&& forall|i: int|
        0 <= i < a.len() ==> (#[trigger] b[i]).id == a[i].id && b[i].title == a[i].title
            && b[i].description == a[i].description
}

proof fn lemma_bulk_status_fold_same(cards: Seq<Card>, list: Seq<(String, bool)>)
    ensures
        same_cards(cards, bulk_status_fold(cards, list)),
    decreases list.len(),
{
    if list.len() > 0 {
        let next = bulk_status_step(cards, list[0]);
        lemma_find_first(cards, card_with_package(list[0].0@));
        assert(same_cards(cards, next));
        lemma_bulk_status_fold_same(next, list.drop_first());
    }
}

proof fn lemma_telemetry_status_fold_same(
    items: Seq<TelemetryItem>,
    list: Seq<(TelemetryId, TelemetryStatus)>,
)
    ensures
        same_telemetry(items, telemetry_status_fold(items, list)),
    decreases list.len(),
{
    if list.len() > 0 {
        let next = telemetry_status_step(items, list[0]);
        lemma_find_first(items, telemetry_with_id(list[0].0));
        assert(same_telemetry(items, next));
        lemma_telemetry_status_fold_same(next, list.drop_first());
    }
}

proof fn lemma_cleanup_size_fold_same(items: Seq<CleanupItem>, list: Seq<(CleanupId, CleanupSize)>)
    ensures
        same_cleanup(items, cleanup_size_fold(items, list)),
    decreases list.len(),
{
    if list.len() > 0 {
        let next = cleanup_size_step(items, list[0]);
        lemma_find_first(items, cleanup_with_id(list[0].0));
        assert(same_cleanup(items, next));
        lemma_cleanup_size_fold_same(next, list.drop_first());
    }
}

proof fn lemma_service_status_fold_same(
    items: Seq<ServiceItem>,
    list: Seq<(ServiceId, ServiceStatus)>,
)
    ensures
        same_services(items, service_status_fold(items, list)),
    decreases list.len(),
{
    if list.len() > 0 {
        let next = service_status_step(items, list[0]);
        lemma_find_first(items, service_with_id(list[0].0));
        assert(same_services(items, next));
        lemma_service_status_fold_same(next, list.drop_first());
    }
}

// ---------------------------------------------------------------------------
// What a report of many entries does
// ---------------------------------------------------------------------------

proof fn lemma_card_report_step(items: Seq<Card>, e: (String, bool))
    ensures
        bulk_status_step(items, e).len() == items.len(),
        forall|k: int|
            0 <= k < items.len() ==> #[trigger] bulk_status_step(items, e)[k] == (Card { status: bulk_status_step(items, e)[k].status, ..items[k] }),
        forall|k: int|
            0 <= k < items.len() && items[k].package@ != e.0@ ==> #[trigger] bulk_status_step(items, e)[k] == items[k],
        forall|k: int|
            0 <= k < items.len() && items[k].package@ == e.0@ && (forall|m: int|
                0 <= m < k ==> items[m].package@ != e.0@) ==> #[trigger] bulk_status_step(items, e)[k].status == (if e.1 { Status::Installed } else { Status::NotInstalled }),
        forall|k: int, m: int|
            #![trigger bulk_status_step(items, e)[k], items[m]]
            0 <= m < k < items.len() && items[m].package@ == items[k].package@ ==> bulk_status_step(items, e)[k]
                == items[k],
{
    lemma_find_first(items, card_with_package(e.0@));
    match find_first(items, card_with_package(e.0@)) {
        Some(i) => {
            assert forall|k: int|
                0 <= k < items.len() && items[k].package@ == e.0@ && (forall|m: int|
                    0 <= m < k ==> items[m].package@ != e.0@) implies #[trigger] bulk_status_step(items, e)[k].status == (if e.1 { Status::Installed } else { Status::NotInstalled }) by {
                if k < i {
                    assert(!card_with_package(e.0@)(items[k]));
                }
                if i < k {
                    assert(card_with_package(e.0@)(items[i]));
                }
            }
            assert forall|k: int, m: int|
                #![trigger bulk_status_step(items, e)[k], items[m]]
                0 <= m < k < items.len() && items[m].package@ == items[k].package@ implies bulk_status_step(items, e)[k]
                    == items[k] by {
                if k == i {
                    assert(!card_with_package(e.0@)(items[m]));
                }
            }
        },
        None => {},
    }
}

proof fn lemma_card_report_fold_at(items: Seq<Card>, list: Seq<(String, bool)>, i: int)
    requires
        0 <= i < items.len(),
    ensures
        bulk_status_fold(items, list).len() == items.len(),
        bulk_status_fold(items, list)[i] == (Card { status: bulk_status_fold(items, list)[i].status, ..items[i] }),
        (forall|j: int| 0 <= j < list.len() ==> #[trigger] list[j].0@ != items[i].package@) ==> bulk_status_fold(items, list)[i]
            == items[i],
        (exists|m: int| 0 <= m < i && #[trigger] items[m].package@ == items[i].package@) ==> bulk_status_fold(items, list)[i]
            == items[i],
    decreases list.len(),
{
    if list.len() > 0 {
        let items1 = bulk_status_step(items, list[0]);
        let tail = list.drop_first();
        lemma_card_report_step(items, list[0]);
        lemma_card_report_fold_at(items1, tail, i);
        assert(items1[i] == (Card { status: items1[i].status, ..items[i] }));
        if forall|j: int| 0 <= j < list.len() ==> #[trigger] list[j].0@ != items[i].package@ {
            assert(list[0].0@ != items[i].package@);
            assert forall|j: int| 0 <= j < tail.len() implies #[trigger] tail[j].0@ != items1[i].package@ by {
                assert(tail[j] == list[j + 1]);
            }
        }
        if exists|m: int| 0 <= m < i && #[trigger] items[m].package@ == items[i].package@ {
            let m = choose|m: int| 0 <= m < i && #[trigger] items[m].package@ == items[i].package@;
            assert(items1[m] == (Card { status: items1[m].status, ..items[m] }));
            assert(items1[m].package@ == items1[i].package@);
        }
    }
}

proof fn lemma_card_report_fold_last(items: Seq<Card>, list: Seq<(String, bool)>, i: int, j: int)
    requires
        0 <= i < items.len(),
        forall|m: int| 0 <= m < i ==> #[trigger] items[m].package@ != items[i].package@,
        0 <= j < list.len(),
        list[j].0@ == items[i].package@,
        forall|j2: int| j < j2 < list.len() ==> #[trigger] list[j2].0@ != items[i].package@,
    ensures
        bulk_status_fold(items, list)[i].status == (if list[j].1 { Status::Installed } else { Status::NotInstalled }),
    decreases list.len(),
{
    let items1 = bulk_status_step(items, list[0]);
    let tail = list.drop_first();
    lemma_card_report_step(items, list[0]);
    assert(items1[i] == (Card { status: items1[i].status, ..items[i] }));
    assert forall|m: int| 0 <= m < i implies #[trigger] items1[m].package@ != items1[i].package@ by {
        assert(items1[m] == (Card { status: items1[m].status, ..items[m] }));
    }
    if j == 0 {
        assert(items1[i].status == (if list[0].1 { Status::Installed } else { Status::NotInstalled }));
        assert forall|jj: int| 0 <= jj < tail.len() implies #[trigger] tail[jj].0@ != items1[i].package@ by {
            assert(tail[jj] == list[jj + 1]);
        }
        lemma_card_report_fold_at(items1, tail, i);
    } else {
        assert(tail[j - 1] == list[j]);
        assert forall|j2: int| j - 1 < j2 < tail.len() implies #[trigger] tail[j2].0@ != items1[i].package@ by {
            assert(tail[j2] == list[j2 + 1]);
        }
        lemma_card_report_fold_last(items1, tail, i, j - 1);
    }
}

proof fn lemma_telemetry_report_step(items: Seq<TelemetryItem>, e: (TelemetryId, TelemetryStatus))
    ensures
        telemetry_status_step(items, e).len() == items.len(),
        forall|k: int|
            0 <= k < items.len() ==> #[trigger] telemetry_status_step(items, e)[k] == (TelemetryItem { status: telemetry_status_step(items, e)[k].status, ..items[k] }),
        forall|k: int|
            0 <= k < items.len() && items[k].id != e.0 ==> #[trigger] telemetry_status_step(items, e)[k] == items[k],
        forall|k: int|
            0 <= k < items.len() && items[k].id == e.0 && (forall|m: int|
                0 <= m < k ==> items[m].id != e.0) ==> #[trigger] telemetry_status_step(items, e)[k].status == e.1,
        forall|k: int, m: int|
            #![trigger telemetry_status_step(items, e)[k], items[m]]
            0 <= m < k < items.len() && items[m].id == items[k].id ==> telemetry_status_step(items, e)[k]
                == items[k],
{
    lemma_find_first(items, telemetry_with_id(e.0));
    match find_first(items, telemetry_with_id(e.0)) {
        Some(i) => {
            assert forall|k: int|
                0 <= k < items.len() && items[k].id == e.0 && (forall|m: int|
                    0 <= m < k ==> items[m].id != e.0) implies #[trigger] telemetry_status_step(items, e)[k].status == e.1 by {
                if k < i {
                    assert(!telemetry_with_id(e.0)(items[k]));
                }
                if i < k {
                    assert(telemetry_with_id(e.0)(items[i]));
                }
            }
            assert forall|k: int, m: int|
                #![trigger telemetry_status_step(items, e)[k], items[m]]
                0 <= m < k < items.len() && items[m].id == items[k].id implies telemetry_status_step(items, e)[k]
                    == items[k] by {
                if k == i {
                    assert(!telemetry_with_id(e.0)(items[m]));
                }
            }
        },
        None => {},
    }
}

proof fn lemma_telemetry_report_fold_at(items: Seq<TelemetryItem>, list: Seq<(TelemetryId, TelemetryStatus)>, i: int)
    requires
        0 <= i < items.len(),
    ensures
        telemetry_status_fold(items, list).len() == items.len(),
        telemetry_status_fold(items, list)[i] == (TelemetryItem { status: telemetry_status_fold(items, list)[i].status, ..items[i] }),
        (forall|j: int| 0 <= j < list.len() ==> #[trigger] list[j].0 != items[i].id) ==> telemetry_status_fold(items, list)[i]
            == items[i],
        (exists|m: int| 0 <= m < i && #[trigger] items[m].id == items[i].id) ==> telemetry_status_fold(items, list)[i]
            == items[i],
    decreases list.len(),
{
    if list.len() > 0 {
        let items1 = telemetry_status_step(items, list[0]);
        let tail = list.drop_first();
        lemma_telemetry_report_step(items, list[0]);
        lemma_telemetry_report_fold_at(items1, tail, i);
        assert(items1[i] == (TelemetryItem { status: items1[i].status, ..items[i] }));
        if forall|j: int| 0 <= j < list.len() ==> #[trigger] list[j].0 != items[i].id {
            assert(list[0].0 != items[i].id);
            assert forall|j: int| 0 <= j < tail.len() implies #[trigger] tail[j].0 != items1[i].id by {
                assert(tail[j] == list[j + 1]);
            }
        }
        if exists|m: int| 0 <= m < i && #[trigger] items[m].id == items[i].id {
            let m = choose|m: int| 0 <= m < i && #[trigger] items[m].id == items[i].id;
            assert(items1[m] == (TelemetryItem { status: items1[m].status, ..items[m] }));
            assert(items1[m].id == items1[i].id);
        }
    }
}

proof fn lemma_telemetry_report_fold_last(items: Seq<TelemetryItem>, list: Seq<(TelemetryId, TelemetryStatus)>, i: int, j: int)
    requires
        0 <= i < items.len(),
        forall|m: int| 0 <= m < i ==> #[trigger] items[m].id != items[i].id,
        0 <= j < list.len(),
        list[j].0 == items[i].id,
        forall|j2: int| j < j2 < list.len() ==> #[trigger] list[j2].0 != items[i].id,
    ensures
        telemetry_status_fold(items, list)[i].status == list[j].1,
    decreases list.len(),
{
    let items1 = telemetry_status_step(items, list[0]);
    let tail = list.drop_first();
    lemma_telemetry_report_step(items, list[0]);
    assert(items1[i] == (TelemetryItem { status: items1[i].status, ..items[i] }));
    assert forall|m: int| 0 <= m < i implies #[trigger] items1[m].id != items1[i].id by {
        assert(items1[m] == (TelemetryItem { status: items1[m].status, ..items[m] }));
    }
    if j == 0 {
        assert(items1[i].status == list[0].1);
        assert forall|jj: int| 0 <= jj < tail.len() implies #[trigger] tail[jj].0 != items1[i].id by {
            assert(tail[jj] == list[jj + 1]);
        }
        lemma_telemetry_report_fold_at(items1, tail, i);
    } else {
        assert(tail[j - 1] == list[j]);
        assert forall|j2: int| j - 1 < j2 < tail.len() implies #[trigger] tail[j2].0 != items1[i].id by {
            assert(tail[j2] == list[j2 + 1]);
        }
        lemma_telemetry_report_fold_last(items1, tail, i, j - 1);
    }
}

proof fn lemma_cleanup_report_step(items: Seq<CleanupItem>, e: (CleanupId, CleanupSize))
    ensures
        cleanup_size_step(items, e).len() == items.len(),
        forall|k: int|
            0 <= k < items.len() ==> #[trigger] cleanup_size_step(items, e)[k] == (CleanupItem { size: cleanup_size_step(items, e)[k].size, ..items[k] }),
        forall|k: int|
            0 <= k < items.len() && items[k].id != e.0 ==> #[trigger] cleanup_size_step(items, e)[k] == items[k],
        forall|k: int|
            0 <= k < items.len() && items[k].id == e.0 && (forall|m: int|
                0 <= m < k ==> items[m].id != e.0) ==> #[trigger] cleanup_size_step(items, e)[k].size == e.1,
        forall|k: int, m: int|
            #![trigger cleanup_size_step(items, e)[k], items[m]]
            0 <= m < k < items.len() && items[m].id == items[k].id ==> cleanup_size_step(items, e)[k]
                == items[k],
{
    lemma_find_first(items, cleanup_with_id(e.0));
    match find_first(items, cleanup_with_id(e.0)) {
        Some(i) => {
            assert forall|k: int|
                0 <= k < items.len() && items[k].id == e.0 && (forall|m: int|
                    0 <= m < k ==> items[m].id != e.0) implies #[trigger] cleanup_size_step(items, e)[k].size == e.1 by {
                if k < i {
                    assert(!cleanup_with_id(e.0)(items[k]));
                }
                if i < k {
                    assert(cleanup_with_id(e.0)(items[i]));
                }
            }
            assert forall|k: int, m: int|
                #![trigger cleanup_size_step(items, e)[k], items[m]]
                0 <= m < k < items.len() && items[m].id == items[k].id implies cleanup_size_step(items, e)[k]
                    == items[k] by {
                if k == i {
                    assert(!cleanup_with_id(e.0)(items[m]));
                }
            }
        },
        None => {},
    }
}

proof fn lemma_cleanup_report_fold_at(items: Seq<CleanupItem>, list: Seq<(CleanupId, CleanupSize)>, i: int)
    requires
        0 <= i < items.len(),
    ensures
        cleanup_size_fold(items, list).len() == items.len(),
        cleanup_size_fold(items, list)[i] == (CleanupItem { size: cleanup_size_fold(items, list)[i].size, ..items[i] }),
        (forall|j: int| 0 <= j < list.len() ==> #[trigger] list[j].0 != items[i].id) ==> cleanup_size_fold(items, list)[i]
            == items[i],
        (exists|m: int| 0 <= m < i && #[trigger] items[m].id == items[i].id) ==> cleanup_size_fold(items, list)[i]
            == items[i],
    decreases list.len(),
{
    if list.len() > 0 {
        let items1 = cleanup_size_step(items, list[0]);
        let tail = list.drop_first();
        lemma_cleanup_report_step(items, list[0]);
        lemma_cleanup_report_fold_at(items1, tail, i);
        assert(items1[i] == (CleanupItem { size: items1[i].size, ..items[i] }));
        if forall|j: int| 0 <= j < list.len() ==> #[trigger] list[j].0 != items[i].id {
            assert(list[0].0 != items[i].id);
            assert forall|j: int| 0 <= j < tail.len() implies #[trigger] tail[j].0 != items1[i].id by {
                assert(tail[j] == list[j + 1]);
            }
        }
        if exists|m: int| 0 <= m < i && #[trigger] items[m].id == items[i].id {
            let m = choose|m: int| 0 <= m < i && #[trigger] items[m].id == items[i].id;
            assert(items1[m] == (CleanupItem { size: items1[m].size, ..items[m] }));
            assert(items1[m].id == items1[i].id);
        }
    }
}

proof fn lemma_cleanup_report_fold_last(items: Seq<CleanupItem>, list: Seq<(CleanupId, CleanupSize)>, i: int, j: int)
    requires
        0 <= i < items.len(),
        forall|m: int| 0 <= m < i ==> #[trigger] items[m].id != items[i].id,
        0 <= j < list.len(),
        list[j].0 == items[i].id,
        forall|j2: int| j < j2 < list.len() ==> #[trigger] list[j2].0 != items[i].id,
    ensures
        cleanup_size_fold(items, list)[i].size == list[j].1,
    decreases list.len(),
{
    let items1 = cleanup_size_step(items, list[0]);
    let tail = list.drop_first();
    lemma_cleanup_report_step(items, list[0]);
    assert(items1[i] == (CleanupItem { size: items1[i].size, ..items[i] }));
    assert forall|m: int| 0 <= m < i implies #[trigger] items1[m].id != items1[i].id by {
        assert(items1[m] == (CleanupItem { size: items1[m].size, ..items[m] }));
    }
    if j == 0 {
        assert(items1[i].size == list[0].1);
        assert forall|jj: int| 0 <= jj < tail.len() implies #[trigger] tail[jj].0 != items1[i].id by {
            assert(tail[jj] == list[jj + 1]);
        }
        lemma_cleanup_report_fold_at(items1, tail, i);
    } else {
        assert(tail[j - 1] == list[j]);
        assert forall|j2: int| j - 1 < j2 < tail.len() implies #[trigger] tail[j2].0 != items1[i].id by {
            assert(tail[j2] == list[j2 + 1]);
        }
        lemma_cleanup_report_fold_last(items1, tail, i, j - 1);
    }
}

proof fn lemma_service_report_step(items: Seq<ServiceItem>, e: (ServiceId, ServiceStatus))
    ensures
        service_status_step(items, e).len() == items.len(),
        forall|k: int|
            0 <= k < items.len() ==> #[trigger] service_status_step(items, e)[k] == (ServiceItem { status: service_status_step(items, e)[k].status, ..items[k] }),
        forall|k: int|
            0 <= k < items.len() && items[k].id != e.0 ==> #[trigger] service_status_step(items, e)[k] == items[k],
        forall|k: int|
            0 <= k < items.len() && items[k].id == e.0 && (forall|m: int|
                0 <= m < k ==> items[m].id != e.0) ==> #[trigger] service_status_step(items, e)[k].status == e.1,
        forall|k: int, m: int|
            #![trigger service_status_step(items, e)[k], items[m]]
            0 <= m < k < items.len() && items[m].id == items[k].id ==> service_status_step(items, e)[k]
                == items[k],
{
    lemma_find_first(items, service_with_id(e.0));
    match find_first(items, service_with_id(e.0)) {
        Some(i) => {
            assert forall|k: int|
                0 <= k < items.len() && items[k].id == e.0 && (forall|m: int|
                    0 <= m < k ==> items[m].id != e.0) implies #[trigger] service_status_step(items, e)[k].status == e.1 by {
                if k < i {
                    assert(!service_with_id(e.0)(items[k]));
                }
                if i < k {
                    assert(service_with_id(e.0)(items[i]));
                }
            }
            assert forall|k: int, m: int|
                #![trigger service_status_step(items, e)[k], items[m]]
                0 <= m < k < items.len() && items[m].id == items[k].id implies service_status_step(items, e)[k]
                    == items[k] by {
                if k == i {
                    assert(!service_with_id(e.0)(items[m]));
                }
            }
        },
        None => {},
    }
}

proof fn lemma_service_report_fold_at(items: Seq<ServiceItem>, list: Seq<(ServiceId, ServiceStatus)>, i: int)
    requires
        0 <= i < items.len(),
    ensures
        service_status_fold(items, list).len() == items.len(),
        service_status_fold(items, list)[i] == (ServiceItem { status: service_status_fold(items, list)[i].status, ..items[i] }),
        (forall|j: int| 0 <= j < list.len() ==> #[trigger] list[j].0 != items[i].id) ==> service_status_fold(items, list)[i]
            == items[i],
        (exists|m: int| 0 <= m < i && #[trigger] items[m].id == items[i].id) ==> service_status_fold(items, list)[i]
            == items[i],
    decreases list.len(),
{
    if list.len() > 0 {
        let items1 = service_status_step(items, list[0]);
        let tail = list.drop_first();
        lemma_service_report_step(items, list[0]);
        lemma_service_report_fold_at(items1, tail, i);
        assert(items1[i] == (ServiceItem { status: items1[i].status, ..items[i] }));
        if forall|j: int| 0 <= j < list.len() ==> #[trigger] list[j].0 != items[i].id {
            assert(list[0].0 != items[i].id);
            assert forall|j: int| 0 <= j < tail.len() implies #[trigger] tail[j].0 != items1[i].id by {
                assert(tail[j] == list[j + 1]);
            }
        }
        if exists|m: int| 0 <= m < i && #[trigger] items[m].id == items[i].id {
            let m = choose|m: int| 0 <= m < i && #[trigger] items[m].id == items[i].id;
            assert(items1[m] == (ServiceItem { status: items1[m].status, ..items[m] }));
            assert(items1[m].id == items1[i].id);
        }
    }
}

proof fn lemma_service_report_fold_last(items: Seq<ServiceItem>, list: Seq<(ServiceId, ServiceStatus)>, i: int, j: int)
    requires
        0 <= i < items.len(),
        forall|m: int| 0 <= m < i ==> #[trigger] items[m].id != items[i].id,
        0 <= j < list.len(),
        list[j].0 == items[i].id,
        forall|j2: int| j < j2 < list.len() ==> #[trigger] list[j2].0 != items[i].id,
    ensures
        service_status_fold(items, list)[i].status == list[j].1,
    decreases list.len(),
{
    let items1 = service_status_step(items, list[0]);
    let tail = list.drop_first();
    lemma_service_report_step(items, list[0]);
    assert(items1[i] == (ServiceItem { status: items1[i].status, ..items[i] }));
    assert forall|m: int| 0 <= m < i implies #[trigger] items1[m].id != items1[i].id by {
        assert(items1[m] == (ServiceItem { status: items1[m].status, ..items[m] }));
    }
    if j == 0 {
        assert(items1[i].status == list[0].1);
        assert forall|jj: int| 0 <= jj < tail.len() implies #[trigger] tail[jj].0 != items1[i].id by {
            assert(tail[jj] == list[jj + 1]);
        }
        lemma_service_report_fold_at(items1, tail, i);
    } else {
        assert(tail[j - 1] == list[j]);
        assert forall|j2: int| j - 1 < j2 < tail.len() implies #[trigger] tail[j2].0 != items1[i].id by {
            assert(tail[j2] == list[j2 + 1]);
        }
        lemma_service_report_fold_last(items1, tail, i, j - 1);
    }
}

/// A package report shows each card as installed or not as the last
/// report of its package says.  Where several cards share a package, the
/// first of them is the one meant.
pub proof fn lemma_card_report_sets_last(s: AppStateView, list: Vec<(String, bool)>, i: int, j: int)
    requires
        0 <= i < s.cards.len(),
        forall|m: int| 0 <= m < i ==> #[trigger] s.cards[m].package@ != s.cards[i].package@,
        0 <= j < list@.len(),
        list@[j].0@ == s.cards[i].package@,
        forall|j2: int| j < j2 < list@.len() ==> #[trigger] list@[j2].0@ != s.cards[i].package@,
    ensures
        spec_apply(s, Msg::BulkStatus(list)).cards[i].status == (if list@[j].1 {
            Status::Installed
        } else {
            Status::NotInstalled
        }),
{
    lemma_card_report_fold_last(s.cards, list@, i, j);
}

/// A package report changes nothing of a card but its status, and leaves a
/// card whose package is not reported as it was.
pub proof fn lemma_card_report_keeps_rest(s: AppStateView, list: Vec<(String, bool)>, i: int)
    requires
        0 <= i < s.cards.len(),
    ensures
        spec_apply(s, Msg::BulkStatus(list)).cards.len() == s.cards.len(),
        spec_apply(s, Msg::BulkStatus(list)).cards[i] == (Card { status: spec_apply(s, Msg::BulkStatus(list)).cards[i].status, ..s.cards[i] }),
        (forall|j: int| 0 <= j < list@.len() ==> #[trigger] list@[j].0@ != s.cards[i].package@) ==> spec_apply(s, Msg::BulkStatus(list)).cards[i]
            == s.cards[i],
{
    lemma_card_report_fold_at(s.cards, list@, i);
}

/// A telemetry report gives each reported entry the status of the last
/// report of its id, wherever that report stands in the list.  Where several
/// entries share an id, the first of them is the one meant.
pub proof fn lemma_telemetry_report_sets_last(s: AppStateView, list: Vec<(TelemetryId, TelemetryStatus)>, i: int, j: int)
    requires
        0 <= i < s.telemetry.len(),
        forall|m: int| 0 <= m < i ==> #[trigger] s.telemetry[m].id != s.telemetry[i].id,
        0 <= j < list@.len(),
        list@[j].0 == s.telemetry[i].id,
        forall|j2: int| j < j2 < list@.len() ==> #[trigger] list@[j2].0 != s.telemetry[i].id,
    ensures
        spec_apply(s, Msg::TelemetryBulkStatus(list)).telemetry[i].status == list@[j].1,
{
    lemma_telemetry_report_fold_last(s.telemetry, list@, i, j);
}

/// A telemetry report changes nothing of an entry but its status, and
/// leaves an entry whose id is not reported as it was.
pub proof fn lemma_telemetry_report_keeps_rest(s: AppStateView, list: Vec<(TelemetryId, TelemetryStatus)>, i: int)
    requires
        0 <= i < s.telemetry.len(),
    ensures
        spec_apply(s, Msg::TelemetryBulkStatus(list)).telemetry.len() == s.telemetry.len(),
        spec_apply(s, Msg::TelemetryBulkStatus(list)).telemetry[i] == (TelemetryItem { status: spec_apply(s, Msg::TelemetryBulkStatus(list)).telemetry[i].status, ..s.telemetry[i] }),
        (forall|j: int| 0 <= j < list@.len() ==> #[trigger] list@[j].0 != s.telemetry[i].id) ==> spec_apply(s, Msg::TelemetryBulkStatus(list)).telemetry[i]
            == s.telemetry[i],
{
    lemma_telemetry_report_fold_at(s.telemetry, list@, i);
}

/// A size report gives each reported category the size of the last report
/// of its id, wherever that report stands in the list.  Where several
/// categories share an id, the first of them is the one meant.
pub proof fn lemma_cleanup_report_sets_last(s: AppStateView, list: Vec<(CleanupId, CleanupSize)>, i: int, j: int)
    requires
        0 <= i < s.cleanup_items.len(),
        forall|m: int| 0 <= m < i ==> #[trigger] s.cleanup_items[m].id != s.cleanup_items[i].id,
        0 <= j < list@.len(),
        list@[j].0 == s.cleanup_items[i].id,
        forall|j2: int| j < j2 < list@.len() ==> #[trigger] list@[j2].0 != s.cleanup_items[i].id,
    ensures
        spec_apply(s, Msg::CleanupSizesReady(list)).cleanup_items[i].size == list@[j].1,
{
    lemma_cleanup_report_fold_last(s.cleanup_items, list@, i, j);
}

/// A size report changes nothing of a category but its size, and leaves a
/// category whose id is not reported as it was.
pub proof fn lemma_cleanup_report_keeps_rest(s: AppStateView, list: Vec<(CleanupId, CleanupSize)>, i: int)
    requires
        0 <= i < s.cleanup_items.len(),
    ensures
        spec_apply(s, Msg::CleanupSizesReady(list)).cleanup_items.len() == s.cleanup_items.len(),
        spec_apply(s, Msg::CleanupSizesReady(list)).cleanup_items[i] == (CleanupItem { size: spec_apply(s, Msg::CleanupSizesReady(list)).cleanup_items[i].size, ..s.cleanup_items[i] }),
        (forall|j: int| 0 <= j < list@.len() ==> #[trigger] list@[j].0 != s.cleanup_items[i].id) ==> spec_apply(s, Msg::CleanupSizesReady(list)).cleanup_items[i]
            == s.cleanup_items[i],
{
    lemma_cleanup_report_fold_at(s.cleanup_items, list@, i);
}

/// A service report gives each reported service the status of the last
/// report of its id, wherever that report stands in the list.  Where several
/// services share an id, the first of them is the one meant.
pub proof fn lemma_service_report_sets_last(s: AppStateView, list: Vec<(ServiceId, ServiceStatus)>, i: int, j: int)
    requires
        0 <= i < s.services.len(),
        forall|m: int| 0 <= m < i ==> #[trigger] s.services[m].id != s.services[i].id,
        0 <= j < list@.len(),
        list@[j].0 == s.services[i].id,
        forall|j2: int| j < j2 < list@.len() ==> #[trigger] list@[j2].0 != s.services[i].id,
    ensures
        spec_apply(s, Msg::ServiceBulkStatus(list)).services[i].status == list@[j].1,
{
    lemma_service_report_fold_last(s.services, list@, i, j);
}

/// A service report changes nothing of a service but its status, and
/// leaves a service whose id is not reported as it was.
pub proof fn lemma_service_report_keeps_rest(s: AppStateView, list: Vec<(ServiceId, ServiceStatus)>, i: int)
    requires
        0 <= i < s.services.len(),
    ensures
        spec_apply(s, Msg::ServiceBulkStatus(list)).services.len() == s.services.len(),
        spec_apply(s, Msg::ServiceBulkStatus(list)).services[i] == (ServiceItem { status: spec_apply(s, Msg::ServiceBulkStatus(list)).services[i].status, ..s.services[i] }),
        (forall|j: int| 0 <= j < list@.len() ==> #[trigger] list@[j].0 != s.services[i].id) ==> spec_apply(s, Msg::ServiceBulkStatus(list)).services[i]
            == s.services[i],
{
    lemma_service_report_fold_at(s.services, list@, i);
}

/// No message adds, drops, reorders or renames an entry of the pages: it
/// only changes statuses, sizes, busy flags and logs.  The task list keeps
/// its tasks and grows by at most one.
pub proof fn lemma_apply_keeps_entries(s: AppStateView, msg: Msg)
    ensures
        same_cards(s.cards, spec_apply(s, msg).cards),
        same_telemetry(s.telemetry, spec_apply(s, msg).telemetry),
        same_cleanup(s.cleanup_items, spec_apply(s, msg).cleanup_items),
        same_services(s.services, spec_apply(s, msg).services),
        s.tasks.len() <= spec_apply(s, msg).tasks.len() <= s.tasks.len() + 1,
        forall|i: int|
            0 <= i < s.tasks.len() ==> (#[trigger] spec_apply(s, msg).tasks[i]).name
                == s.tasks[i].name,
{
    lemma_bulk_status_fold_same(s.cards, Seq::empty());
    lemma_telemetry_status_fold_same(s.telemetry, Seq::empty());
    lemma_cleanup_size_fold_same(s.cleanup_items, Seq::empty());
    lemma_service_status_fold_same(s.services, Seq::empty());
    match msg {
        Msg::BulkStatus(list) => {
            lemma_bulk_status_fold_same(s.cards, list@);
        },
        Msg::TelemetryBulkStatus(list) => {
            lemma_telemetry_status_fold_same(s.telemetry, list@);
        },
        Msg::TelemetryOpDone { id, new_status, log } => {
            lemma_find_first(s.telemetry, telemetry_with_id(id));
        },
        Msg::CleanupSizesReady(list) => {
            lemma_cleanup_size_fold_same(s.cleanup_items, list@);
        },
        Msg::CleanupOpDone { id, new_size, log } => {
            lemma_find_first(s.cleanup_items, cleanup_with_id(id));
        },
        Msg::ServiceBulkStatus(list) => {
            lemma_service_status_fold_same(s.services, list@);
        },
        Msg::ServiceOpDone { id, new_status, log } => {
            lemma_find_first(s.services, service_with_id(id));
        },
        Msg::TaskUpdate(entry) => {
            lemma_find_first(s.tasks, task_with_name(entry.name@));
        },
        _ => {},
    }
}

/// No two tasks share a name.
pub open spec fn task_names_distinct(tasks: Seq<TaskEntry>) -> bool {
    forall|i: int, j: int|
        0 <= i < j < tasks.len() ==> (#[trigger] tasks[i]).name@ != (#[trigger] tasks[j]).name@
}

/// Task reports keep task names distinct: a report under a known name
/// updates that task instead of adding another.
pub proof fn lemma_apply_keeps_task_names_distinct(s: AppStateView, msg: Msg)
    requires
        task_names_distinct(s.tasks),
    ensures
        task_names_distinct(spec_apply(s, msg).tasks),
{
    match msg {
        Msg::TaskUpdate(entry) => {
            lemma_find_first(s.tasks, task_with_name(entry.name@));
            let t = spec_apply(s, msg).tasks;
            match find_first(s.tasks, task_with_name(entry.name@)) {
                Some(k) => {
                    assert forall|i: int, j: int| 0 <= i < j < t.len() implies (#[trigger] t[i]).name@
                        != (#[trigger] t[j]).name@ by {
                        assert(t[i].name == s.tasks[i].name);
                        assert(t[j].name == s.tasks[j].name);
                    }
                },
                None => {
                    assert forall|i: int, j: int| 0 <= i < j < t.len() implies (#[trigger] t[i]).name@
                        != (#[trigger] t[j]).name@ by {
                        if j == s.tasks.len() {
                            assert(t[j] == entry);
                            assert(!(task_with_name(entry.name@))(s.tasks[i]));
                        } else {
                            assert(t[i] == s.tasks[i]);
                            assert(t[j] == s.tasks[j]);
                        }
                    }
                },
            }
        },
        _ => {},
    }
}

/// Finishing what `begin_remove` or `begin_restore` started: the reply for
/// that card leaves it idle with the reported status and log, and the card
/// is still the one that was started.
pub proof fn lemma_card_started_then_done(
    s0: AppStateView,
    s1: AppStateView,
    idx: usize,
    log0: Seq<char>,
    new_status: Status,
    log: String,
)
    requires
        can_start_card(s0.cards, idx),
        card_started(s0, s1, idx as int, log0),
    ensures
        ({
            let c = spec_apply(s1, Msg::OpDone { idx, new_status, log }).cards[idx as int];
            &&& !c.busy
            &&& c.status == new_status
            &&& c.log == Some(log)
            &&& c.package == s0.cards[idx as int].package
            &&& c.title == s0.cards[idx as int].title
        }),
{
}

/// Finishing a telemetry switch: the reply for `id` leaves that entry idle
/// with the reported status and log.
pub proof fn lemma_telemetry_started_then_done(
    s0: AppStateView,
    s1: AppStateView,
    id: TelemetryId,
    log0: Seq<char>,
    new_status: TelemetryStatus,
    log: String,
)
    requires
        can_start_telemetry(s0.telemetry, id),
        telemetry_started(s0, s1, id, log0),
    ensures
        find_first(s0.telemetry, telemetry_with_id(id)) matches Some(i) && ({
            let t = spec_apply(s1, Msg::TelemetryOpDone { id, new_status, log }).telemetry[i];
            &&& !t.busy
            &&& t.status == new_status
            &&& t.log == Some(log)
            &&& t.id == id
        }),
{
    lemma_find_first(s0.telemetry, telemetry_with_id(id));
    let i = find_first(s0.telemetry, telemetry_with_id(id))->0;
    assert forall|j: int| 0 <= j < i implies !(telemetry_with_id(id))(s1.telemetry[j]) by {
        assert(s1.telemetry[j] == s0.telemetry[j]);
    }
    lemma_find_first_at(s1.telemetry, telemetry_with_id(id), i);
}

/// Finishing a cleanup: the reply for `id` leaves that category idle with
/// the reported size and log.
pub proof fn lemma_cleanup_started_then_done(
    s0: AppStateView,
    s1: AppStateView,
    id: CleanupId,
    log0: Seq<char>,
    new_size: CleanupSize,
    log: String,
)
    requires
        can_start_cleanup(s0.cleanup_items, id),
        cleanup_started(s0, s1, id, log0),
    ensures
        find_first(s0.cleanup_items, cleanup_with_id(id)) matches Some(i) && ({
            let c = spec_apply(s1, Msg::CleanupOpDone { id, new_size, log }).cleanup_items[i];
            &&& !c.busy
            &&& c.size == new_size
            &&& c.log == Some(log)
            &&& c.id == id
        }),
{
    lemma_find_first(s0.cleanup_items, cleanup_with_id(id));
    let i = find_first(s0.cleanup_items, cleanup_with_id(id))->0;
    assert forall|j: int| 0 <= j < i implies !(cleanup_with_id(id))(s1.cleanup_items[j]) by {
        assert(s1.cleanup_items[j] == s0.cleanup_items[j]);
    }
    lemma_find_first_at(s1.cleanup_items, cleanup_with_id(id), i);
}

/// Finishing a service switch: the reply for `id` leaves that service idle
/// with the reported status and log.
pub proof fn lemma_service_started_then_done(
    s0: AppStateView,
    s1: AppStateView,
    id: ServiceId,
    log0: Seq<char>,
    new_status: ServiceStatus,
    log: String,
)
    requires
        can_start_service(s0.services, id),
        service_started(s0, s1, id, log0),
    ensures
        find_first(s0.services, service_with_id(id)) matches Some(i) && ({
            let c = spec_apply(s1, Msg::ServiceOpDone { id, new_status, log }).services[i];
            &&& !c.busy
            &&& c.status == new_status
            &&& c.log == Some(log)
            &&& c.id == id
        }),
{
    lemma_find_first(s0.services, service_with_id(id));
    let i = find_first(s0.services, service_with_id(id))->0;
    assert forall|j: int| 0 <= j < i implies !(service_with_id(id))(s1.services[j]) by {
        assert(s1.services[j] == s0.services[j]);
    }
    lemma_find_first_at(s1.services, service_with_id(id), i);
}

/// The memory figures arriving end the refresh that was running, and a
/// finished memory operation ends the operation.
pub proof fn lemma_mem_replies_settle(s: AppStateView, info: MemInfo, op: MemOp, log: String)
    ensures
        !spec_apply(s, Msg::MemInfoReady(info)).mem_refresh_in_flight,
        spec_apply(s, Msg::MemInfoReady(info)).mem_info == Some(info),
        !spec_apply(s, Msg::MemOpDone { id: op, log }).mem_busy,
{
}

/// The sizes arriving end the count that was running and mark the sizes
/// as loaded, so opening the page does not count again.
pub proof fn lemma_sizes_reply_settles(s: AppStateView, list: Vec<(CleanupId, CleanupSize)>)
    ensures
        !spec_apply(s, Msg::CleanupSizesReady(list)).cleanup_refresh_in_flight,
        spec_apply(s, Msg::CleanupSizesReady(list)).cleanup_sizes_loaded,
{
}

// ---------------------------------------------------------------------------
// The start, the token dialog and the settings
// ---------------------------------------------------------------------------

impl AppState {
    /// The state the program starts with: the home page, every list with
    /// its entries unknown and idle, no facts gathered, nothing running.
    pub fn new(config: Config, settings: AppSettings) -> (r: AppState)
        ensures
            r.view == Page::Home,
            r.cards@.len() == uwp_table().len(),
            forall|k: int| 0 <= k < r.cards@.len() ==> is_fresh_card(#[trigger] r.cards@[k], uwp_table()[k]),
            r.telemetry@.len() == all_telemetry_ids().len(),
            forall|k: int|
                0 <= k < r.telemetry@.len() ==> is_fresh_telemetry_item(
                    #[trigger] r.telemetry@[k],
                    all_telemetry_ids()[k],
                ),
            r.cleanup_items@.len() == all_cleanup_ids().len(),
            forall|k: int|
                0 <= k < r.cleanup_items@.len() ==> is_fresh_cleanup_item(
                    #[trigger] r.cleanup_items@[k],
                    all_cleanup_ids()[k],
                ),
            r.services@.len() == all_service_ids().len(),
            forall|k: int|
                0 <= k < r.services@.len() ==> is_fresh_service_item(
                    #[trigger] r.services@[k],
                    all_service_ids()[k],
                ),
            r.settings == settings,
            r@.config == config@,
            r.update_state is Idle,
            r.sys_info is None,
            !r.show_token_dialog,
            r.token_input@.len() == 0,
            r.token_dialog_error is None,
            r.mem_info is None,
            !r.mem_busy,
            r.mem_log is None,
            !r.mem_refresh_in_flight,
            !r.cleanup_refresh_in_flight,
            !r.cleanup_sizes_loaded,
            r.tasks@.len() == 0,
    {
        AppState {
            view: Page::Home,
            cards: uwp_apps(),
            telemetry: telemetry_items(),
            settings,
            update_state: UpdateState::Idle,
            sys_info: None,
            config,
            show_token_dialog: false,
            token_input: String::new(),
            token_dialog_error: None,
            mem_info: None,
            mem_busy: false,
            mem_log: None,
            mem_refresh_in_flight: false,
            cleanup_items: cleanup_items(),
            cleanup_refresh_in_flight: false,
            cleanup_sizes_loaded: false,
            services: service_items(),
            tasks: Vec::new(),
        }
    }

    /// Opens the token dialog with the saved token, if any, filled in.
    pub fn open_token_dialog(&mut self)
        ensures
            final(self)@ == (AppStateView {
                show_token_dialog: true,
                token_input: match old(self)@.config {
                    Some(t) => t,
                    None => Seq::empty(),
                },
                token_dialog_error: None,
                ..old(self)@
            }),
    {
        self.token_input = match &self.config.github_token {
            Some(t) => t.clone(),
            None => String::new(),
        };
        self.token_dialog_error = None;
        self.show_token_dialog = true;
    }

    /// Takes the typed token, trimmed, into the configuration; a blank
    /// token is refused with a message in the dialog.  `true` when the
    /// configuration is to be saved.
    pub fn submit_token(&mut self) -> (r: bool)
        ensures
            r == (trim(old(self).token_input@).len() > 0),
            r ==> final(self)@ == (AppStateView {
                config: Some(trim(old(self).token_input@)),
                ..old(self)@
            }),
            !r ==> final(self)@ == (AppStateView {
                token_dialog_error: Some("Поле токена пустое."@),
                ..old(self)@
            }),
    {
        let v = chars_of(self.token_input.as_str());
        proof {
            assert(v@.subrange(0, v@.len() as int) == v@);
        }
        let (a, b) = trim_bounds(v.as_slice(), 0, v.len());
        if a == b {
            self.token_dialog_error = Some("Поле токена пустое.".to_owned());
            return false;
        }
        self.config.github_token = Some(string_of_range(v.as_slice(), a, b));
        true
    }

    /// Forgets the token; the configuration is then to be saved.
    pub fn clear_token(&mut self)
        ensures
            final(self)@ == (AppStateView { config: None, ..old(self)@ }),
    {
        self.config.github_token = None;
    }

    /// Closes the token dialog and empties it.
    pub fn close_token_dialog(&mut self)
        ensures
            final(self)@ == (AppStateView {
                show_token_dialog: false,
                token_input: Seq::empty(),
                token_dialog_error: None,
                ..old(self)@
            }),
    {
        self.show_token_dialog = false;
        self.token_input = String::new();
        self.token_dialog_error = None;
    }

    /// The result of saving the configuration from the dialog: the dialog
    /// closes when it was saved and shows the error otherwise.
    pub fn finish_token_save(&mut self, result: Result<(), String>)
        ensures
            result is Ok ==> final(self)@ == (AppStateView {
                show_token_dialog: false,
                token_input: Seq::empty(),
                token_dialog_error: None,
                ..old(self)@
            }),
            result matches Err(e) ==> final(self)@ == (AppStateView {
                token_dialog_error: Some("Не удалось сохранить: "@ + e@),
                ..old(self)@
            }),
    {
        match result {
            Ok(()) => {
                self.close_token_dialog();
            },
            Err(e) => {
                let mut s = String::new();
                push_str(&mut s, "Не удалось сохранить: ");
                push_str(&mut s, e.as_str());
                self.token_dialog_error = Some(s);
            },
        }
    }

    /// Switches the log level; `true` when it changed and is to be saved.
    pub fn set_log_level(&mut self, level: LogLevel) -> (r: bool)
        ensures
            r == (level != old(self).settings.log_level),
            final(self)@ == (AppStateView { settings: AppSettings { log_level: level }, ..old(self)@ }),
    {
        let changed = level != self.settings.log_level;
        self.settings = AppSettings { log_level: level };
        changed
    }

    /// Shows another page.
    pub fn show_page(&mut self, page: Page)
        ensures
            final(self)@ == (AppStateView { view: page, ..old(self)@ }),
    {
        self.view = page;
    }
}

} // verus!
