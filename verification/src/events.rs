//! The events table: its row type, the repository that manages it, and the
//! example error type a caller of the accumulator API might wrap failures in.

use vstd::prelude::*;
use crate::store::{prefix, Handle, Pool, Store, TxError, Writes};
use crate::{Execute, GetExecutor, Tx, TxBound};

verus! {

/// An event row. The identifier is the 128-bit value of the row's UUID and
/// the payload holds the event's JSON document as text.
#[derive(Debug, PartialEq, Eq)]
pub struct Event {
    pub id: u128,
    pub name: String,
    pub payload: String,
}

impl Clone for Event {
    fn clone(&self) -> (r: Self)
        ensures
            r == *self,
    {
        Event { id: self.id, name: self.name.clone(), payload: self.payload.clone() }
    }
}

/// An error type of the library's caller: it carries the session error
/// through unchanged, as a caller wrapping failures in its own type would.
#[derive(Debug, Clone, Copy, PartialEq, Eq, Structural)]
pub enum MyError {
    StoreFailure(TxError),
}

impl From<TxError> for MyError {
    fn from(e: TxError) -> (r: Self) {
        MyError::StoreFailure(e)
    }
}

impl vstd::std_specs::convert::FromSpecImpl<TxError> for MyError {
    open spec fn obeys_from_spec() -> bool {
        true
    }

    open spec fn from_spec(e: TxError) -> Self {
        MyError::StoreFailure(e)
    }
}

/// A lightweight wrapper binding the event operations to one executor:
/// either the shared pool or a live transaction. It holds no state of its
/// own beyond the executor.
#[derive(Clone)]
pub struct EventsRepository<E: Execute> {
    executor: E,
}

impl<E: Execute> Execute for EventsRepository<E> {
    closed spec fn held(&self) -> Writes {
        self.executor.held()
    }

    closed spec fn snapshot(&self) -> Writes {
        self.executor.snapshot()
    }

    closed spec fn is_transactional(&self) -> bool {
        self.executor.is_transactional()
    }
}

impl<E: Execute> Tx for EventsRepository<E> {
    type TxRepository = EventsRepository<Handle>;
}

impl GetExecutor for EventsRepository<Pool> {
    fn get_executor(&self) -> &Pool {
        &self.executor
    }
}

impl TxBound for EventsRepository<Handle> {
    fn from_handle(tx: Handle) -> (r: Self) {
        EventsRepository { executor: tx }
    }

    fn into_handle(self) -> (tx: Handle) {
        self.executor
    }
}

impl EventsRepository<Pool> {
    pub fn new(pool: Pool) -> (r: Self)
        ensures
            !r.is_transactional(),
            r.held() == Writes::empty(),
    {
        Self { executor: pool }
    }

    /// Read the first `limit` event rows, in insertion order.
    pub fn get_events(&self, store: &Store, limit: i64) -> (r: Vec<Event>)
        requires
            0 <= limit,
        ensures
            r@ == prefix(store.contents().events, limit as int),
    {
        store.read_events(limit)
    }

    /// Insert one event row outside any session; it is durable at once.
    pub fn create_event(&mut self, store: &mut Store, id: u128, name: String, payload: String) -> (r:
        Event)
        ensures
            r.id == id && r.name == name && r.payload == payload,
            final(store).contents().events == old(store).contents().events.push(r),
            final(store).contents().users == old(store).contents().users,
            final(store).same_admin(*old(store)),
    {
        let e = Event { id, name, payload };
        let r = e.clone();
        store.insert_event(e);
        r
    }
}

impl EventsRepository<Handle> {
    /// Read the first `limit` event rows the transaction sees: its snapshot
    /// followed by its own not-yet-durable writes.
    pub fn get_events(&self, limit: i64) -> (r: Vec<Event>)
        requires
            0 <= limit,
        ensures
            r@ == prefix(self.snapshot().events + self.held().events, limit as int),
    {
        self.executor.read_events(limit)
    }

    /// Record one event row in the transaction; it becomes durable only when
    /// the session commits.
    pub fn create_event(&mut self, id: u128, name: String, payload: String) -> (r: Event)
        ensures
            r.id == id && r.name == name && r.payload == payload,
            final(self).held().events == old(self).held().events.push(r),
            final(self).held().users == old(self).held().users,
            final(self).snapshot() == old(self).snapshot(),
            final(self).is_transactional() == old(self).is_transactional(),
    {
        let e = Event { id, name, payload };
        let r = e.clone();
        self.executor.record_event(e);
        r
    }
}

} // verus!
