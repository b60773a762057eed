//! The one storage of a page: opened by whoever needs it first, shared by all.
//! Requests may overlap.

use crate::environment::{property_views, Property};
use crate::report::{unmet, unmet_text};
use crate::scripts::{blob_worker_url, fetched_view, worker_url};
use vstd::prelude::*;
use vstd::string::*;

verus! {

/// File of the storage's worker loader.
pub const STORAGE_WORKER: &'static str = "storage-worker.js";

/// What a page has of its storage.
#[derive(Clone, Copy, Debug, PartialEq, Eq)]
pub enum PageStorage {
    /// Nothing.
    Absent,
    /// A request is opening it.
    Opening,
    /// The page holds it.
    Held,
}

/// How far a request for the storage has come.
#[derive(Clone, Copy, Debug, PartialEq, Eq)]
pub enum StoragePhase {
    /// Nothing has been looked at yet.
    Asked,
    /// Another request is opening the storage.
    Waiting,
    /// The worker's URL is being made.
    Fetching,
    /// The storage is being opened.
    Opening,
    /// A handle was handed out.
    Served,
    /// The request failed.
    Failed,
}

/// What the host reports.
#[derive(Debug, PartialEq, Eq)]
pub enum StorageEvent {
    /// It is the request's turn to look at the page.
    Turn,
    /// What came of making the worker's URL, as [`blob_worker_url`] takes it.
    Fetched(Result<Option<String>, String>),
    /// The storage is open.
    Opened,
    /// The storage failed to open, with this error as it is printed.
    NotOpened(String),
}

/// An event with its texts as sequences of characters.
pub ghost enum StorageEventView {
    Turn,
    Fetched(Result<Option<Seq<char>>, Seq<char>>),
    Opened,
    NotOpened(Seq<char>),
}

impl View for StorageEvent {
    type V = StorageEventView;

    open spec fn view(&self) -> StorageEventView {
        match self {
            StorageEvent::Turn => StorageEventView::Turn,
            StorageEvent::Fetched(outcome) => StorageEventView::Fetched(fetched_view(*outcome)),
            StorageEvent::Opened => StorageEventView::Opened,
            StorageEvent::NotOpened(error) => StorageEventView::NotOpened(error@),
        }
    }
}

/// What the host is asked to do next.
#[derive(Debug, PartialEq, Eq)]
pub enum StorageAction {
    /// Hand out a fork of the storage that the page holds.
    HandOut,
    /// Let other requests go on, then take another turn.
    Wait,
    /// Make a URL for the worker loader in this file.
    FetchWorker { file: &'static str },
    /// Open the storage with these options.
    Open { options: Vec<Property> },
    /// Let the page hold the storage that was opened, and hand out a fork of it.
    KeepAndHandOut,
    /// Give up, and say this.
    Fail { message: String },
}

/// An action with its texts as sequences of characters.
pub ghost enum StorageActionView {
    HandOut,
    Wait,
    FetchWorker { file: Seq<char> },
    Open { options: Seq<(Seq<char>, Seq<char>)> },
    KeepAndHandOut,
    Fail { message: Seq<char> },
}

impl View for StorageAction {
    type V = StorageActionView;

    open spec fn view(&self) -> StorageActionView {
        match self {
            StorageAction::HandOut => StorageActionView::HandOut,
            StorageAction::Wait => StorageActionView::Wait,
            StorageAction::FetchWorker { file } => StorageActionView::FetchWorker { file: file@ },
            StorageAction::Open { options } => StorageActionView::Open {
                options: property_views(options@),
            },
            StorageAction::KeepAndHandOut => StorageActionView::KeepAndHandOut,
            StorageAction::Fail { message } => StorageActionView::Fail { message: message@ },
        }
    }
}

/// What an event of a request makes of the page and of the request, and what is
/// asked of the host with it.
pub open spec fn storage_next(
    page: PageStorage,
    phase: StoragePhase,
    event: StorageEventView,
) -> (PageStorage, StoragePhase, StorageActionView) {
    match (phase, event) {
        (StoragePhase::Asked | StoragePhase::Waiting, StorageEventView::Turn) => match page {
            PageStorage::Absent => (
                PageStorage::Opening,
                StoragePhase::Fetching,
                StorageActionView::FetchWorker { file: STORAGE_WORKER@ },
            ),
            PageStorage::Opening => (page, StoragePhase::Waiting, StorageActionView::Wait),
            PageStorage::Held => (page, StoragePhase::Served, StorageActionView::HandOut),
        },
        (StoragePhase::Fetching, StorageEventView::Fetched(outcome)) => match worker_url(outcome) {
            Ok(url) => (
                page,
                StoragePhase::Opening,
                StorageActionView::Open { options: seq![("workerUrl"@, url)] },
            ),
            Err(message) => (
                PageStorage::Absent,
                StoragePhase::Failed,
                StorageActionView::Fail { message },
            ),
        },
        (StoragePhase::Opening, StorageEventView::Opened) => (
            PageStorage::Held,
            StoragePhase::Served,
            StorageActionView::KeepAndHandOut,
        ),
        (StoragePhase::Opening, StorageEventView::NotOpened(error)) => (
            PageStorage::Absent,
            StoragePhase::Failed,
            StorageActionView::Fail {
                message: unmet("storage worker must start and answer its ping"@, error),
            },
        ),
        (StoragePhase::Fetching | StoragePhase::Opening, _) => (
            PageStorage::Absent,
            StoragePhase::Failed,
            StorageActionView::Fail { message: "unexpected event"@ },
        ),
        _ => (
            page,
            StoragePhase::Failed,
            StorageActionView::Fail { message: "unexpected event"@ },
        ),
    }
}

/// Takes a request for the page's storage one event further.
///
/// The storage must be opened once per page, because its file is held with an
/// exclusive handle. The first request opens it, requests that come meanwhile wait,
/// and where the page holds it a fork of it is handed out. A request that fails to
/// open it leaves that to the next.
pub fn open_test_storage(
    page: &mut PageStorage,
    phase: StoragePhase,
    event: StorageEvent,
) -> (r: (StoragePhase, StorageAction))
    ensures
        (*final(page), r.0, r.1@) == storage_next(*old(page), phase, event@),
{
    match (phase, event) {
        (StoragePhase::Asked, StorageEvent::Turn) | (StoragePhase::Waiting, StorageEvent::Turn) => {
            match *page {
                PageStorage::Absent => {
                    *page = PageStorage::Opening;
                    (StoragePhase::Fetching, StorageAction::FetchWorker { file: STORAGE_WORKER })
                },
                PageStorage::Opening => (StoragePhase::Waiting, StorageAction::Wait),
                PageStorage::Held => (StoragePhase::Served, StorageAction::HandOut),
            }
        },
        (StoragePhase::Fetching, StorageEvent::Fetched(outcome)) => match blob_worker_url(outcome) {
            Ok(url) => {
                let ghost text = url@;
                let mut options: Vec<Property> = Vec::new();
                options.push(Property { name: "workerUrl", value: url });
                proof {
                    assert(property_views(options@) =~= seq![("workerUrl"@, text)]);
                }
                (StoragePhase::Opening, StorageAction::Open { options })
            },
            Err(message) => {
                *page = PageStorage::Absent;
                (StoragePhase::Failed, StorageAction::Fail { message })
            },
        },
        (StoragePhase::Opening, StorageEvent::Opened) => {
            *page = PageStorage::Held;
            (StoragePhase::Served, StorageAction::KeepAndHandOut)
        },
        (StoragePhase::Opening, StorageEvent::NotOpened(error)) => {
            *page = PageStorage::Absent;
            let message = unmet_text(
                "storage worker must start and answer its ping",
                error.as_str(),
            );
            (StoragePhase::Failed, StorageAction::Fail { message })
        },
        (StoragePhase::Fetching, _) | (StoragePhase::Opening, _) => {
            *page = PageStorage::Absent;
            let message = "unexpected event".to_owned();
            (StoragePhase::Failed, StorageAction::Fail { message })
        },
        _ => {
            let message = "unexpected event".to_owned();
            (StoragePhase::Failed, StorageAction::Fail { message })
        },
    }
}

/// A request: how far it has come, the storage that it opened, and the storage of
/// which it was handed a fork. Storages are numbered in the order in which they are
/// opened.
pub ghost struct Request {
    pub phase: StoragePhase,
    pub opened: Option<nat>,
    pub handle: Option<nat>,
}

/// A page with requests for its storage that come and go on in any order: what it
/// has, the storage that it holds, how often one was opened, and how many actions
/// failed.
pub ghost struct Page {
    pub storage: PageStorage,
    pub held: Option<nat>,
    pub opens: nat,
    pub failures: nat,
    pub requests: Seq<Request>,
}

/// A page without a storage, and `n` requests.
pub open spec fn fresh_page(n: nat) -> Page {
    Page {
        storage: PageStorage::Absent,
        held: None,
        opens: 0,
        failures: 0,
        requests: Seq::new(
            n,
            |i: int| Request { phase: StoragePhase::Asked, opened: None, handle: None },
        ),
    }
}

/// Whether the host can report an event of a request: one that answers what was
/// asked of it last.
pub open spec fn can_report(page: Page, request: int, event: StorageEventView) -> bool {
    &&& 0 <= request < page.requests.len()
    &&& match page.requests[request].phase {
        StoragePhase::Asked | StoragePhase::Waiting => event is Turn,
        StoragePhase::Fetching => event is Fetched,
        StoragePhase::Opening => event is Opened || event is NotOpened,
        StoragePhase::Served | StoragePhase::Failed => false,
    }
}

/// The page after an event of a request, the host having done what was asked with
/// it.
pub open spec fn page_after(page: Page, request: int, event: StorageEventView) -> Page {
    let asking = page.requests[request];
    let (storage, phase, action) = storage_next(page.storage, asking.phase, event);
    let opens = if action is Open {
        page.opens + 1
    } else {
        page.opens
    };
    let held = if action is KeepAndHandOut {
        asking.opened
    } else {
        page.held
    };
    Page {
        storage,
        held,
        opens,
        failures: if action is Fail {
            page.failures + 1
        } else {
            page.failures
        },
        requests: page.requests.update(
            request,
            Request {
                phase,
                opened: if action is Open {
                    Some(page.opens)
                } else {
                    asking.opened
                },
                handle: if action is HandOut || action is KeepAndHandOut {
                    held
                } else {
                    asking.handle
                },
            },
        ),
    }
}

/// The page after a sequence of events, each of a request, or none where the host
/// cannot report one of them when its turn comes.
pub open spec fn page_after_all(n: nat, events: Seq<(int, StorageEventView)>) -> Option<Page>
    decreases events.len(),
{
    if events.len() == 0 {
        Some(fresh_page(n))
    } else {
        match page_after_all(n, events.drop_last()) {
            Some(page) => {
                let (request, event) = events.last();
                if can_report(page, request, event) {
                    Some(page_after(page, request, event))
                } else {
                    None
                }
            },
            None => None,
        }
    }
}

/// Whether a request is at work on opening the storage.
pub open spec fn is_opening(request: Request) -> bool {
    request.phase == StoragePhase::Fetching || request.phase == StoragePhase::Opening
}

/// Whether a page's requests agree with what it has.
spec fn consistent(page: Page) -> bool {
    &&& page.storage == PageStorage::Held <==> page.held is Some
    &&& forall|i: int|
        0 <= i < page.requests.len() && is_opening(#[trigger] page.requests[i]) ==> page.storage
            == PageStorage::Opening
    &&& forall|i: int, j: int|
        0 <= i < page.requests.len() && 0 <= j < page.requests.len() && is_opening(
            #[trigger] page.requests[i],
        ) && is_opening(#[trigger] page.requests[j]) ==> i == j
    &&& forall|i: int|
        0 <= i < page.requests.len() && (#[trigger] page.requests[i]).phase
            == StoragePhase::Opening ==> page.requests[i].opened is Some
    &&& forall|i: int|
        0 <= i < page.requests.len() && (#[trigger] page.requests[i]).phase
            == StoragePhase::Served ==> page.held is Some && page.requests[i].handle == page.held
    &&& page.opens <= page.failures + 1
    &&& page.opens > page.failures ==> page.held is Some || exists|i: int|
        0 <= i < page.requests.len() && (#[trigger] page.requests[i]).phase
            == StoragePhase::Opening
}

proof fn lemma_consistent(n: nat, events: Seq<(int, StorageEventView)>)
    ensures
        page_after_all(n, events) matches Some(page) ==> consistent(page) && page.requests.len()
            == n,
    decreases events.len(),
{
    if events.len() > 0 {
        lemma_consistent(n, events.drop_last());
        if page_after_all(n, events) is Some {
            let page = page_after_all(n, events.drop_last())->0;
            let (request, event) = events.last();
            let now = page_after(page, request, event);
            let asking = page.requests[request];
            assert forall|i: int| 0 <= i < page.requests.len() && i != request implies
                now.requests[i] == #[trigger] page.requests[i] by {}
            if asking.phase == StoragePhase::Fetching && page.opens > page.failures {
                let other = choose|i: int|
                    0 <= i < page.requests.len() && (#[trigger] page.requests[i]).phase
                        == StoragePhase::Opening;
                assert(is_opening(asking) && is_opening(page.requests[other]));
            }
            if now.opens > now.failures && now.held is None {
                if now.requests[request].phase == StoragePhase::Opening {
                    assert(now.requests[request].phase == StoragePhase::Opening);
                } else {
                    let other = choose|i: int|
                        0 <= i < page.requests.len() && (#[trigger] page.requests[i]).phase
                            == StoragePhase::Opening;
                    assert(now.requests[other].phase == StoragePhase::Opening);
                }
            }
        }
    }
}

/// However requests for a page's storage overlap, and whatever order their events
/// come in, no two are ever opening it at once, none is where the page holds it,
/// and where nothing failed it is opened once at most.
pub proof fn storage_is_opened_once(n: nat, events: Seq<(int, StorageEventView)>)
    requires
        page_after_all(n, events) is Some,
    ensures
        ({
            let page = page_after_all(n, events)->0;
            &&& page.failures == 0 ==> page.opens <= 1
            &&& page.opens <= page.failures + 1
            &&& forall|i: int, j: int|
                0 <= i < n && 0 <= j < n && is_opening(#[trigger] page.requests[i]) && is_opening(
                    #[trigger] page.requests[j],
                ) ==> i == j
            &&& forall|i: int|
                0 <= i < n && is_opening(#[trigger] page.requests[i]) ==> page.held is None
        }),
{
    lemma_consistent(n, events);
}

/// Every request that is served, at whatever time and however requests overlap, is
/// handed a fork of the one storage that the page holds.
pub proof fn every_served_request_shares_the_storage(
    n: nat,
    events: Seq<(int, StorageEventView)>,
    i: int,
)
    requires
        page_after_all(n, events) matches Some(page) && 0 <= i < n && page.requests[i].phase
            == StoragePhase::Served,
    ensures
        page_after_all(n, events)->0.held is Some,
        page_after_all(n, events)->0.requests[i].handle == page_after_all(n, events)->0.held,
{
    lemma_consistent(n, events);
}

/// A page that holds a storage goes on holding that one, and serves every request
/// that takes a turn.
pub proof fn a_held_storage_stays(
    n: nat,
    events: Seq<(int, StorageEventView)>,
    request: int,
    event: StorageEventView,
)
    requires
        page_after_all(n, events) matches Some(page) && page.held is Some && can_report(
            page,
            request,
            event,
        ),
    ensures
        ({
            let page = page_after_all(n, events)->0;
            let now = page_after(page, request, event);
            &&& now.held == page.held
            &&& now.opens == page.opens
            &&& now.requests[request].phase == StoragePhase::Served
        }),
{
    lemma_consistent(n, events);
    let page = page_after_all(n, events)->0;
    assert(!is_opening(page.requests[request]));
}

} // verus!
