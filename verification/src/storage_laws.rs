//! What each event makes of the one storage of a page and of a request for it.

use crate::environment::property_views;
use crate::storage::{open_test_storage, PageStorage, StorageAction, StorageEvent, StoragePhase};
use vstd::prelude::*;
use vstd::string::*;

verus! {

/// A request whose turn it is goes by what the page has: it opens the storage where there is
/// none, waits where another request is at it, and is handed the storage that is there.
pub proof fn a_turn_goes_by_what_the_page_has(
    page: &mut PageStorage,
    phase: StoragePhase,
    event: StorageEvent,
    made: (StoragePhase, StorageAction),
)
    requires
        call_ensures(open_test_storage, (page, phase, event), made),
        phase == StoragePhase::Asked || phase == StoragePhase::Waiting,
        event is Turn,
    ensures
        *old(page) == PageStorage::Absent ==> {
            &&& *final(page) == PageStorage::Opening
            &&& made.0 == StoragePhase::Fetching
            &&& made.1 matches StorageAction::FetchWorker { file } && file@ == "storage-worker.js"@
        },
        *old(page) == PageStorage::Opening ==> {
            &&& *final(page) == PageStorage::Opening
            &&& made.0 == StoragePhase::Waiting
            &&& made.1 is Wait
        },
        *old(page) == PageStorage::Held ==> {
            &&& *final(page) == PageStorage::Held
            &&& made.0 == StoragePhase::Served
            &&& made.1 is HandOut
        },
{
}

/// The storage is opened with the URL of the worker that was fetched, whatever it is, and
/// with nothing else.
pub proof fn a_storage_is_opened_with_the_worker_that_was_fetched(
    page: &mut PageStorage,
    event: StorageEvent,
    made: (StoragePhase, StorageAction),
    url: String,
)
    requires
        call_ensures(open_test_storage, (page, StoragePhase::Fetching, event), made),
        event == StorageEvent::Fetched(Ok(Some(url))),
    ensures
        *final(page) == *old(page),
        made.0 == StoragePhase::Opening,
        made.1 matches StorageAction::Open { options } && options@.len() == 1
            && options@[0].name@ == "workerUrl"@ && options@[0].value@ == url@,
{
    if let StorageAction::Open { options } = made.1 {
        let list = property_views(options@);
        assert(list.len() == 1);
        assert(list[0] == (options@[0].name@, options@[0].value@));
    }
}

/// A storage that is open is the page's, and is handed out.
pub proof fn an_open_storage_is_kept_and_handed_out(
    page: &mut PageStorage,
    event: StorageEvent,
    made: (StoragePhase, StorageAction),
)
    requires
        call_ensures(open_test_storage, (page, StoragePhase::Opening, event), made),
        event is Opened,
    ensures
        *final(page) == PageStorage::Held,
        made.0 == StoragePhase::Served,
        made.1 is KeepAndHandOut,
{
}

/// A request that fails to open the storage leaves that to the next: the page has no
/// storage then, so the next turn opens one. It says what failed, with the error.
pub proof fn a_failed_opening_is_left_to_the_next(
    page: &mut PageStorage,
    phase: StoragePhase,
    event: StorageEvent,
    made: (StoragePhase, StorageAction),
)
    requires
        call_ensures(open_test_storage, (page, phase, event), made),
        phase == StoragePhase::Fetching ==> !(event matches StorageEvent::Fetched(Ok(Some(_)))),
        phase == StoragePhase::Opening ==> !(event is Opened),
        phase == StoragePhase::Fetching || phase == StoragePhase::Opening,
    ensures
        *final(page) == PageStorage::Absent,
        made.0 == StoragePhase::Failed,
        made.1 matches StorageAction::Fail { message } && message@ == (match (phase, event) {
            (StoragePhase::Fetching, StorageEvent::Fetched(Err(error))) =>
                "called `Result::unwrap()` on an `Err` value"@ + ": "@ + error@,
            (StoragePhase::Fetching, StorageEvent::Fetched(Ok(_))) =>
                "called `Option::unwrap()` on a `None` value"@,
            (StoragePhase::Opening, StorageEvent::NotOpened(error)) =>
                "storage worker must start and answer its ping"@ + ": "@ + error@,
            _ => "unexpected event"@,
        }),
{
}

/// An event out of place fails its request and changes nothing of the page; a request that
/// was served or failed takes no event.
pub proof fn an_event_out_of_place_changes_no_page(
    page: &mut PageStorage,
    phase: StoragePhase,
    event: StorageEvent,
    made: (StoragePhase, StorageAction),
)
    requires
        call_ensures(open_test_storage, (page, phase, event), made),
        match phase {
            StoragePhase::Asked => !(event is Turn),
            StoragePhase::Waiting => !(event is Turn),
            StoragePhase::Fetching => false,
            StoragePhase::Opening => false,
            StoragePhase::Served => true,
            StoragePhase::Failed => true,
        },
    ensures
        *final(page) == *old(page),
        made.0 == StoragePhase::Failed,
        made.1 matches StorageAction::Fail { message } && message@ == "unexpected event"@,
{
}

} // verus!
