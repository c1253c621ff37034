//! The instrumented data store the sessions run against, and the move-only
//! transaction handle.
//!
//! The store plays the part of the database server: it holds the durable
//! rows, hands out transaction handles, and counts every transaction begun
//! and every commit recorded, so that callers can observe that a session
//! begins exactly one transaction and commits at most once. Failure of the
//! underlying store at begin or at commit can be injected, which is how the
//! acquisition and commit error paths are exercised.
//!
//! A [`Handle`] is the live, exclusive representation of one open
//! transaction. Only [`Store::begin_transaction`] creates one, it cannot be
//! cloned, and every consumer takes it by value, so a handle is always owned
//! by exactly one place: handing it on is a move, never a copy. Writes made
//! through a handle are buffered inside it; they reach the durable contents
//! only if the handle is passed to [`Store::commit`]. Dropping a handle
//! without committing discards the buffer — the implicit rollback.

use vstd::prelude::*;
use crate::events::Event;
use crate::users::User;

verus! {

/// The error kinds a session can surface.
#[derive(Debug, Clone, Copy, PartialEq, Eq, Structural)]
pub enum TxError {
    /// The store could not open a new transaction.
    Acquisition,
    /// A failure raised inside a unit of work; the code it carries travels
    /// through the chain unchanged.
    Store(u64),
    /// The final commit call failed after every step had succeeded.
    Commit,
}

/// A write-set: the rows of each table, in the order they were written.
pub ghost struct Writes {
    pub users: Seq<User>,
    pub events: Seq<Event>,
}

impl Writes {
    /// The write-set with no rows at all.
    pub open spec fn empty() -> Writes {
        Writes { users: Seq::empty(), events: Seq::empty() }
    }

    /// This write-set followed by all of `w`, table by table.
    pub open spec fn merged(self, w: Writes) -> Writes {
        Writes { users: self.users + w.users, events: self.events + w.events }
    }
}

/// The first `n` elements of `s` in order, or all of `s` if it is shorter.
pub open spec fn prefix<T>(s: Seq<T>, n: int) -> Seq<T> {
    if n <= s.len() {
        s.take(n)
    } else {
        s
    }
}

/// The live, exclusive representation of one open transaction: the snapshot
/// of the durable contents it was begun against, plus the writes recorded
/// through it so far. It is deliberately not cloneable — at every instant
/// exactly one owner holds it.
pub struct Handle {
    base_users: Vec<User>,
    base_events: Vec<Event>,
    new_users: Vec<User>,
    new_events: Vec<Event>,
}

impl Handle {
    /// The writes recorded through this handle, not yet durable.
    pub closed spec fn writes(&self) -> Writes {
        Writes { users: self.new_users@, events: self.new_events@ }
    }

    /// The durable contents this transaction sees: its snapshot at begin.
    pub closed spec fn base(&self) -> Writes {
        Writes { users: self.base_users@, events: self.base_events@ }
    }

    pub(crate) fn record_user(&mut self, u: User)
        ensures
            final(self).writes().users == old(self).writes().users.push(u),
            final(self).writes().events == old(self).writes().events,
            final(self).base() == old(self).base(),
    {
        self.new_users.push(u);
    }

    pub(crate) fn record_event(&mut self, e: Event)
        ensures
            final(self).writes().events == old(self).writes().events.push(e),
            final(self).writes().users == old(self).writes().users,
            final(self).base() == old(self).base(),
    {
        self.new_events.push(e);
    }

    pub(crate) fn read_users(&self, limit: i64) -> (r: Vec<User>)
        requires
            0 <= limit,
        ensures
            r@ == prefix(self.base().users + self.writes().users, limit as int),
    {
        let mut all = clone_users(&self.base_users);
        let mut extra = clone_users(&self.new_users);
        all.append(&mut extra);
        take_prefix(all, limit)
    }

    pub(crate) fn read_events(&self, limit: i64) -> (r: Vec<Event>)
        requires
            0 <= limit,
        ensures
            r@ == prefix(self.base().events + self.writes().events, limit as int),
    {
        let mut all = clone_events(&self.base_events);
        let mut extra = clone_events(&self.new_events);
        all.append(&mut extra);
        take_prefix(all, limit)
    }
}

/// The shared, reusable side of the executor capability. Any number of
/// repositories may hold it; in the model it carries no state of its own —
/// the durable contents live in the [`Store`].
#[derive(Debug, Clone, Copy)]
pub struct Pool {}

impl Pool {
    pub fn new() -> Pool {
        Pool {  }
    }
}

/// The data store itself: durable rows, the transaction counters, and the
/// injectable failure switches.
pub struct Store {
    users: Vec<User>,
    events: Vec<Event>,
    n_begins: u64,
    n_commits: u64,
    fail_begin: bool,
    fail_commit: bool,
}

impl Store {
    /// The durable rows, table by table, in insertion order.
    pub closed spec fn contents(&self) -> Writes {
        Writes { users: self.users@, events: self.events@ }
    }

    /// How many transactions have been begun.
    pub closed spec fn begins(&self) -> u64 {
        self.n_begins
    }

    /// How many commit calls the store has recorded.
    pub closed spec fn commits(&self) -> u64 {
        self.n_commits
    }

    /// Whether the next begin is set to fail.
    pub closed spec fn fails_begin(&self) -> bool {
        self.fail_begin
    }

    /// Whether the next commit is set to fail.
    pub closed spec fn fails_commit(&self) -> bool {
        self.fail_commit
    }

    /// The counters have room for one more session.
    pub open spec fn counters_ok(&self) -> bool {
        self.begins() < u64::MAX && self.commits() < u64::MAX
    }

    /// Counters and failure switches agree with `other`'s.
    pub open spec fn same_admin(self, other: Store) -> bool {
        &&& self.begins() == other.begins()
        &&& self.commits() == other.commits()
        &&& self.fails_begin() == other.fails_begin()
        &&& self.fails_commit() == other.fails_commit()
    }

    /// An empty store: no rows, no transactions yet, no injected failures.
    pub fn new() -> (s: Store)
        ensures
            s.contents() == Writes::empty(),
            s.begins() == 0,
            s.commits() == 0,
            !s.fails_begin(),
            !s.fails_commit(),
    {
        Store {
            users: Vec::new(),
            events: Vec::new(),
            n_begins: 0,
            n_commits: 0,
            fail_begin: false,
            fail_commit: false,
        }
    }

    /// Make every following begin fail (or succeed again) with
    /// [`TxError::Acquisition`], as an exhausted pool would.
    pub fn inject_begin_failure(&mut self, on: bool)
        ensures
            final(self).fails_begin() == on,
            final(self).fails_commit() == old(self).fails_commit(),
            final(self).contents() == old(self).contents(),
            final(self).begins() == old(self).begins(),
            final(self).commits() == old(self).commits(),
    {
        self.fail_begin = on;
    }

    /// Make every following commit fail (or succeed again) with
    /// [`TxError::Commit`].
    pub fn inject_commit_failure(&mut self, on: bool)
        ensures
            final(self).fails_commit() == on,
            final(self).fails_begin() == old(self).fails_begin(),
            final(self).contents() == old(self).contents(),
            final(self).begins() == old(self).begins(),
            final(self).commits() == old(self).commits(),
    {
        self.fail_commit = on;
    }

    /// How many commit calls the store has recorded.
    pub fn commit_count(&self) -> (n: u64)
        ensures
            n == self.commits(),
    {
        self.n_commits
    }

    /// How many transactions have been begun.
    pub fn begin_count(&self) -> (n: u64)
        ensures
            n == self.begins(),
    {
        self.n_begins
    }

    /// Open a new transaction: the returned handle starts with no writes and
    /// sees the durable contents as they are now. Fails exactly when a begin
    /// failure is injected, in which case nothing changes.
    pub fn begin_transaction(&mut self) -> (r: Result<Handle, TxError>)
        requires
            old(self).begins() < u64::MAX,
        ensures
            final(self).contents() == old(self).contents(),
            final(self).commits() == old(self).commits(),
            final(self).fails_begin() == old(self).fails_begin(),
            final(self).fails_commit() == old(self).fails_commit(),
            old(self).fails_begin() ==> r == Err::<Handle, TxError>(TxError::Acquisition)
                && final(self).begins() == old(self).begins(),
            !old(self).fails_begin() ==> final(self).begins() == old(self).begins() + 1 && (
            r matches Ok(tx) && tx.writes() == Writes::empty() && tx.base() == old(self).contents()),
    {
        if self.fail_begin {
            return Err(TxError::Acquisition);
        }
        self.n_begins = self.n_begins + 1;
        let base_users = clone_users(&self.users);
        let base_events = clone_events(&self.events);
        Ok(Handle { base_users, base_events, new_users: Vec::new(), new_events: Vec::new() })
    }

    /// Commit a transaction: its writes are appended to the durable contents
    /// and one commit is recorded. Fails exactly when a commit failure is
    /// injected; the handle is consumed either way, so a failed commit
    /// leaves no durable trace — the session is effectively rolled back.
    pub fn commit(&mut self, tx: Handle) -> (r: Result<(), TxError>)
        requires
            old(self).commits() < u64::MAX,
        ensures
            final(self).begins() == old(self).begins(),
            final(self).fails_begin() == old(self).fails_begin(),
            final(self).fails_commit() == old(self).fails_commit(),
            !old(self).fails_commit() ==> r == Ok::<(), TxError>(()) && final(self).commits()
                == old(self).commits() + 1 && final(self).contents() == old(self).contents().merged(tx.writes()),
            old(self).fails_commit() ==> r == Err::<(), TxError>(TxError::Commit) && final(self).commits() == old(self).commits() && final(self).contents() == old(self).contents(),
    {
        if self.fail_commit {
            return Err(TxError::Commit);
        }
        let mut tx = tx;
        self.users.append(&mut tx.new_users);
        self.events.append(&mut tx.new_events);
        self.n_commits = self.n_commits + 1;
        Ok(())
    }

    pub(crate) fn insert_user(&mut self, u: User)
        ensures
            final(self).contents().users == old(self).contents().users.push(u),
            final(self).contents().events == old(self).contents().events,
            final(self).same_admin(*old(self)),
    {
        self.users.push(u);
    }

    pub(crate) fn insert_event(&mut self, e: Event)
        ensures
            final(self).contents().events == old(self).contents().events.push(e),
            final(self).contents().users == old(self).contents().users,
            final(self).same_admin(*old(self)),
    {
        self.events.push(e);
    }

    pub(crate) fn read_users(&self, limit: i64) -> (r: Vec<User>)
        requires
            0 <= limit,
        ensures
            r@ == prefix(self.contents().users, limit as int),
    {
        take_prefix(clone_users(&self.users), limit)
    }

    pub(crate) fn read_events(&self, limit: i64) -> (r: Vec<Event>)
        requires
            0 <= limit,
        ensures
            r@ == prefix(self.contents().events, limit as int),
    {
        take_prefix(clone_events(&self.events), limit)
    }
}

fn clone_users(v: &Vec<User>) -> (r: Vec<User>)
    ensures
        r@ == v@,
{
    let mut r: Vec<User> = Vec::new();
    let mut i: usize = 0;
    while i < v.len()
        invariant
            i <= v.len(),
            r@ == v@.subrange(0, i as int),
        decreases v.len() - i,
    {
        r.push(v[i].clone());
        proof {
            assert(r@ =~= v@.subrange(0, i as int + 1));
        }
        i = i + 1;
    }
    proof {
        assert(r@ =~= v@);
    }
    r
}

fn clone_events(v: &Vec<Event>) -> (r: Vec<Event>)
    ensures
        r@ == v@,
{
    let mut r: Vec<Event> = Vec::new();
    let mut i: usize = 0;
    while i < v.len()
        invariant
            i <= v.len(),
            r@ == v@.subrange(0, i as int),
        decreases v.len() - i,
    {
        r.push(v[i].clone());
        proof {
            assert(r@ =~= v@.subrange(0, i as int + 1));
        }
        i = i + 1;
    }
    proof {
        assert(r@ =~= v@);
    }
    r
}

fn take_prefix<T>(v: Vec<T>, limit: i64) -> (r: Vec<T>)
    requires
        0 <= limit,
    ensures
        r@ == prefix(v@, limit as int),
{
    let mut w = v;
    let ghost s = w@;
    let n: usize = if (limit as u64) < (w.len() as u64) {
        limit as usize
    } else {
        w.len()
    };
    w.truncate(n);
    proof {
        if limit as int >= s.len() {
            assert(w@ =~= s);
        }
    }
    w
}

} // verus!
