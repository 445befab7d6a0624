use std::sync::Arc;

use vstd::prelude::*;
use vstd::rwlock::{ReadHandle, RwLock, RwLockPredicate, WriteHandle};

use crate::event::{Event, RepositoryError};
use crate::ident::decimal;
use crate::store::{views, well_numbered, EventStore};

verus! {

/// Relies on `Arc::clone`, which hands out another pointer to the same
/// allocation, so the clone stands for the same value.
#[verifier::external_body]
fn share<T>(a: &Arc<T>) -> (r: Arc<T>)
    ensures
        r == *a,
{
    Arc::clone(a)
}

/// The capability set of a storage backend. Request handling depends on this
/// trait alone, never on a concrete backend.
pub trait EventRepository: Clone + Send + Sync + 'static {
    /// Stores one new event with the payload's name and detail and a
    /// backend-assigned identifier, and returns it.
    fn create(&self, payload: Event) -> (r: Result<Event, RepositoryError>)
        ensures
            r matches Ok(e) ==> e.event_name@ == payload.event_name@
                && e.event_detail@ == payload.event_detail@,
    ;

    /// Every stored event, or an error: never part of them.
    fn all(&self) -> (r: Result<Vec<Event>, RepositoryError>);
}

/// What the lock of a [`EventRepositoryForMemory`] holds in every state: a
/// store whose identifiers follow its positions.
pub struct StoreIsValid {}

impl RwLockPredicate<EventStore> for StoreIsValid {
    open spec fn inv(self, s: EventStore) -> bool {
        s.wf()
    }
}

/// An in-process backend: a store shared by all clones of the handle and
/// guarded by a reader/writer lock, so that a creation (count, number, insert)
/// is one exclusive step and readers never see a half-made event.
pub struct EventRepositoryForMemory {
    store: Arc<RwLock<EventStore, StoreIsValid>>,
}

impl EventRepositoryForMemory {
    /// Whether two handles reach the one same lock, and so the same store.
    pub closed spec fn shares_store_with(&self, other: &Self) -> bool {
        *self.store == *other.store
    }
}

impl Clone for EventRepositoryForMemory {
    /// Another handle on the same shared store.
    fn clone(&self) -> (r: Self)
        ensures
            r.shares_store_with(self),
    {
        EventRepositoryForMemory { store: share(&self.store) }
    }
}

impl EventRepositoryForMemory {
    pub fn new() -> (r: Self) {
        EventRepositoryForMemory { store: Arc::new(RwLock::new(EventStore::new(), Ghost(StoreIsValid {}))) }
    }

    /// Takes the exclusive section: the store as it stands, which is valid,
    /// and the handle that puts a store back and releases the section.
    fn write_store_ref(&self) -> (r: (EventStore, WriteHandle<'_, EventStore, StoreIsValid>))
        ensures
            r.0.wf(),
            r.1.rwlock() == *self.store,
    {
        self.store.acquire_write()
    }

    /// Takes a shared section, whose handle lends out the valid store.
    fn read_store_ref(&self) -> (r: ReadHandle<'_, EventStore, StoreIsValid>)
        ensures
            r.view().wf(),
            r.rwlock() == *self.store,
    {
        self.store.acquire_read()
    }
}

impl EventRepository for EventRepositoryForMemory {
    /// Always succeeds; the identifier is the decimal notation of a number
    /// from one up.
    fn create(&self, payload: Event) -> (r: Result<Event, RepositoryError>)
        ensures
            r is Ok,
            r matches Ok(e) ==> exists|id: nat| 1 <= id && e.uid@ == decimal(id),
    {
        let (mut store, handle) = self.write_store_ref();
        let e = store.create(payload);
        handle.release_write(store);
        Ok(e)
    }

    /// Always succeeds; the listing's identifiers follow its positions, so no
    /// two of its events share one.
    fn all(&self) -> (r: Result<Vec<Event>, RepositoryError>)
        ensures
            r matches Ok(v) && well_numbered(views(v@)),
    {
        let handle = self.read_store_ref();
        let events = handle.borrow().all();
        handle.release_read();
        Ok(events)
    }
}

} // verus!
