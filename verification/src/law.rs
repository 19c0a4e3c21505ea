use vstd::prelude::*;

use crate::identity::Identity;
use crate::record::Collection;

verus! {

/// One collection as the storage substrate sees it: the collection record
/// together with the addresses of the live documents counted against it.
///
/// The two handlers that touch a collection's counter map onto this model as
/// follows. A successful [`crate::handler::create_document`] call fills a
/// document slot that held no record — its address was not live — and takes
/// the counter from `count` to `count + 1`: a [`DocumentEvent::Created`]
/// event. A successful [`crate::handler::delete_document`] call empties the
/// slot of an existing document and takes the counter from `count` to
/// `count - 1`: a [`DocumentEvent::Deleted`] event. Refused calls leave both
/// records unchanged, so they are no event at all.
pub struct StoreModel {
    pub collection: Collection,
    pub live: Set<int>,
}

/// A successful create-document or delete-document call against one
/// collection, named by the address of the document's storage slot.
pub enum DocumentEvent {
    Created { address: int },
    Deleted { address: int },
}

/// The store a create-collection call leaves behind: a zero-count collection
/// with no live documents.
pub open spec fn initial_store(authority: Identity) -> StoreModel {
    StoreModel { collection: Collection { authority, count: 0u64 }, live: Set::empty() }
}

/// The counter invariant: the collection's count equals the number of
/// currently-live documents created against it.
pub open spec fn store_counted(m: StoreModel) -> bool {
    m.live.finite() && m.collection.count as nat == m.live.len()
}

/// When an event can happen: a document is created only in a slot that holds
/// no record and while the counter is below its width (`create_document`
/// refuses `Allocation` and `CounterOverflow` otherwise), and only an
/// existing document is deleted.
pub open spec fn event_allowed(m: StoreModel, e: DocumentEvent) -> bool {
    match e {
        DocumentEvent::Created { address } => !m.live.contains(address) && m.collection.count
            < u64::MAX,
        DocumentEvent::Deleted { address } => m.live.contains(address),
    }
}

/// What an event does: exactly the successful handler's effect on the
/// collection and the document slot. The collection's authority is never
/// touched.
pub open spec fn apply_event(m: StoreModel, e: DocumentEvent) -> StoreModel {
    match e {
        DocumentEvent::Created { address } => StoreModel {
            collection: Collection {
                authority: m.collection.authority,
                count: if m.collection.count < u64::MAX {
                    (m.collection.count + 1) as u64
                } else {
                    u64::MAX
                },
            },
            live: m.live.insert(address),
        },
        DocumentEvent::Deleted { address } => StoreModel {
            collection: Collection {
                authority: m.collection.authority,
                count: if m.collection.count > 0 {
                    (m.collection.count - 1) as u64
                } else {
                    0u64
                },
            },
            live: m.live.remove(address),
        },
    }
}

/// The store after a sequence of events, first event first.
pub open spec fn run(m: StoreModel, events: Seq<DocumentEvent>) -> StoreModel
    decreases events.len(),
{
    if events.len() == 0 {
        m
    } else {
        run(apply_event(m, events[0]), events.drop_first())
    }
}

/// Every event of the sequence is allowed in the store it finds.
pub open spec fn events_allowed(m: StoreModel, events: Seq<DocumentEvent>) -> bool
    decreases events.len(),
{
    events.len() == 0 || (event_allowed(m, events[0]) && events_allowed(
        apply_event(m, events[0]),
        events.drop_first(),
    ))
}

/// One allowed event keeps the counter invariant: creation adds one live
/// address and one to the count, deletion removes one of each. Under the
/// invariant a deletion also finds the counter above zero, so
/// `CounterUnderflow` cannot strike a collection whose counter is honest.
pub proof fn lemma_event_keeps_count(m: StoreModel, e: DocumentEvent)
    requires
        store_counted(m),
        event_allowed(m, e),
    ensures
        store_counted(apply_event(m, e)),
        apply_event(m, e).collection.authority == m.collection.authority,
{
    match e {
        DocumentEvent::Created { address } => {
            assert(m.live.insert(address).len() == m.live.len() + 1);
        },
        DocumentEvent::Deleted { address } => {
            assert(m.live.len() == m.live.remove(address).len() + 1);
        },
    }
}

/// The counter invariant holds along any allowed run, and the collection's
/// authority is immutable along it.
pub proof fn lemma_run_keeps_count(m: StoreModel, events: Seq<DocumentEvent>)
    requires
        store_counted(m),
        events_allowed(m, events),
    ensures
        store_counted(run(m, events)),
        run(m, events).collection.authority == m.collection.authority,
    decreases events.len(),
{
    if events.len() > 0 {
        lemma_event_keeps_count(m, events[0]);
        lemma_run_keeps_count(apply_event(m, events[0]), events.drop_first());
    }
}

/// The counter invariant: for every allowed sequence of create-document and
/// delete-document events on a collection from its creation, the collection's
/// count equals the number of currently-live documents created against it,
/// and its authority is still the identity it was created with.
pub proof fn lemma_count_matches_live_documents(authority: Identity, events: Seq<DocumentEvent>)
    requires
        events_allowed(initial_store(authority), events),
    ensures
        run(initial_store(authority), events).collection.count as nat == run(
            initial_store(authority),
            events,
        ).live.len(),
        run(initial_store(authority), events).collection.authority == authority,
{
    assert(Set::<int>::empty().len() == 0);
    lemma_run_keeps_count(initial_store(authority), events);
}

} // verus!
