//! The users table: its row type and the repository that manages it.

use vstd::prelude::*;
use crate::store::{prefix, Handle, Pool, Store, Writes};
use crate::{Execute, GetExecutor, Tx, TxBound};

verus! {

/// A user row. The identifier is the 128-bit value of the row's UUID.
#[derive(Debug, PartialEq, Eq)]
pub struct User {
    pub id: u128,
    pub name: String,
}

impl Clone for User {
    fn clone(&self) -> (r: Self)
        ensures
            r == *self,
    {
        User { id: self.id, name: self.name.clone() }
    }
}

/// A lightweight wrapper binding the user operations to one executor:
/// either the shared pool or a live transaction. It holds no state of its
/// own beyond the executor.
#[derive(Clone)]
pub struct UsersRepository<E: Execute> {
    executor: E,
}

impl<E: Execute> Execute for UsersRepository<E> {
    closed spec fn held(&self) -> Writes {
        self.executor.held()
    }

    closed spec fn snapshot(&self) -> Writes {
        self.executor.snapshot()
    }

    closed spec fn is_transactional(&self) -> bool {
        self.executor.is_transactional()
    }
}

impl<E: Execute> Tx for UsersRepository<E> {
    type TxRepository = UsersRepository<Handle>;
}

impl GetExecutor for UsersRepository<Pool> {
    fn get_executor(&self) -> &Pool {
        &self.executor
    }
}

impl TxBound for UsersRepository<Handle> {
    fn from_handle(tx: Handle) -> (r: Self) {
        UsersRepository { executor: tx }
    }

    fn into_handle(self) -> (tx: Handle) {
        self.executor
    }
}

impl UsersRepository<Pool> {
    pub fn new(pool: Pool) -> (r: Self)
        ensures
            !r.is_transactional(),
            r.held() == Writes::empty(),
    {
        Self { executor: pool }
    }

    /// Read the first `limit` user rows, in insertion order.
    pub fn get_users(&self, store: &Store, limit: i64) -> (r: Vec<User>)
        requires
            0 <= limit,
        ensures
            r@ == prefix(store.contents().users, limit as int),
    {
        store.read_users(limit)
    }

    /// Insert one user row outside any session; it is durable at once.
    pub fn create_user(&mut self, store: &mut Store, id: u128, name: String) -> (r: User)
        ensures
            r.id == id && r.name == name,
            final(store).contents().users == old(store).contents().users.push(r),
            final(store).contents().events == old(store).contents().events,
            final(store).same_admin(*old(store)),
    {
        let u = User { id, name };
        let r = u.clone();
        store.insert_user(u);
        r
    }
}

impl UsersRepository<Handle> {
    /// Read the first `limit` user rows the transaction sees: its snapshot
    /// followed by its own not-yet-durable writes.
    pub fn get_users(&self, limit: i64) -> (r: Vec<User>)
        requires
            0 <= limit,
        ensures
            r@ == prefix(self.snapshot().users + self.held().users, limit as int),
    {
        self.executor.read_users(limit)
    }

    /// Record one user row in the transaction; it becomes durable only when
    /// the session commits.
    pub fn create_user(&mut self, id: u128, name: String) -> (r: User)
        ensures
            r.id == id && r.name == name,
            final(self).held().users == old(self).held().users.push(r),
            final(self).held().events == old(self).held().events,
            final(self).snapshot() == old(self).snapshot(),
            final(self).is_transactional() == old(self).is_transactional(),
    {
        let u = User { id, name };
        let r = u.clone();
        self.executor.record_user(u);
        r
    }
}

} // verus!
