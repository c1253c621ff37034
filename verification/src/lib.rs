//! Cooperative sharing of a single transaction across several repository
//! types.
//!
//! Several independent repositories, each normally bound to its own
//! connection, can run a sequence of operations — including operations
//! delegated into *other* repository types — inside one transaction, with
//! the guarantee that the transaction is begun exactly once, committed
//! exactly once on full success, and rolled back on any failure, at every
//! nesting depth.
//!
//! The transaction is represented by a move-only [`store::Handle`]: the
//! chaining engine moves it between repository types and never copies it,
//! so at every instant exactly one step holds it. A unit of work receives a
//! repository bound to the handle and must hand that repository (and with it
//! the handle) back; failure keeps the handle from coming back, which keeps
//! the commit from happening.
//!
//! Two call shapes expose the same protocol: nested callbacks
//! ([`Begin::begin`] and [`Chainable::chain`]) and an explicit accumulator
//! ([`tx_chain::TxChain`]).

use vstd::prelude::*;

pub mod events;
pub mod laws;
pub mod store;
pub mod tx_chain;
pub mod users;

pub use events::{Event, EventsRepository, MyError};
pub use users::{User, UsersRepository};

use store::{Handle, Pool, Store, TxError, Writes};

verus! {

/// An execution capability: either the shared pool or one live transaction.
/// Its contract is the pair of views every query runs against — the writes
/// it holds back from the durable contents, and the durable contents it
/// sees.
pub trait Execute: Sized {
    /// Writes recorded through this executor that are not yet durable.
    spec fn held(&self) -> Writes;

    /// The durable contents this executor reads against. For a transaction
    /// this is its snapshot at begin; a pool executor reads the store
    /// directly and holds nothing back.
    spec fn snapshot(&self) -> Writes;

    /// Whether this executor is an exclusive in-flight transaction.
    spec fn is_transactional(&self) -> bool;
}

impl Execute for Pool {
    open spec fn held(&self) -> Writes {
        Writes::empty()
    }

    open spec fn snapshot(&self) -> Writes {
        Writes::empty()
    }

    open spec fn is_transactional(&self) -> bool {
        false
    }
}

impl Execute for Handle {
    open spec fn held(&self) -> Writes {
        self.writes()
    }

    open spec fn snapshot(&self) -> Writes {
        self.base()
    }

    open spec fn is_transactional(&self) -> bool {
        true
    }
}

/// Access to the shared pool. Only pool-bound repositories offer it, which
/// is what keeps `begin` away from transaction-bound repositories: a
/// repository already inside a session may only `chain`, never open a
/// nested session.
pub trait GetExecutor {
    fn get_executor(&self) -> &Pool;
}

/// A repository shape bound to a live transaction: it can be rebuilt from
/// the handle and dissolved back into it without loss. This ownership
/// transfer pair is what the chaining engine moves the handle between
/// repository types with; both directions are total and preserve the
/// transaction's writes and snapshot exactly.
pub trait TxBound: Execute {
    fn from_handle(tx: Handle) -> (r: Self)
        ensures
            r.held() == tx.writes(),
            r.snapshot() == tx.base(),
            r.is_transactional(),
    ;

    fn into_handle(self) -> (tx: Handle)
        ensures
            tx.writes() == self.held(),
            tx.base() == self.snapshot(),
    ;
}

/// Fixes, for a repository in any binding, the type of the same repository
/// bound to a transaction.
pub trait Tx {
    type TxRepository: TxBound;
}

/// One full session in the nested-callback shape: begin, run one unit of
/// work, then commit on success or roll back on failure.
pub trait Begin: Tx + Sized {
    /// Acquire a transaction from the store, run `f` exactly once on a
    /// repository bound to it, and dispatch the outcome: commit when `f`
    /// succeeded, discard the transaction — rolling its writes back — when
    /// `f` failed or the commit itself fails.
    ///
    /// The contract pins the whole session down:
    /// - any outcome other than `Ok` leaves the durable contents and the
    ///   commit count unchanged (atomicity);
    /// - `Ok` records exactly one commit, and the durable contents grow by
    ///   exactly the writes `f`'s returned repository held (single commit);
    /// - `TxError::Acquisition` comes exactly when the store refuses to
    ///   open a transaction, `TxError::Commit` exactly when every step
    ///   succeeded and the final commit call failed, and any other error is
    ///   `f`'s own, returned unchanged.
    fn begin<F: FnOnce(Self::TxRepository) -> Result<Self::TxRepository, TxError>>(
        &self,
        store: &mut Store,
        f: F,
    ) -> (r: Result<(), TxError>)
        requires
            old(store).counters_ok(),
            forall|repo: Self::TxRepository|
                (repo.held() == Writes::empty() && repo.snapshot() == old(store).contents()
                    && repo.is_transactional()) ==> #[trigger] call_requires(f, (repo,)),
        ensures
            final(store).fails_begin() == old(store).fails_begin(),
            final(store).fails_commit() == old(store).fails_commit(),
            !(r is Ok) ==> final(store).contents() == old(store).contents() && final(store).commits() == old(store).commits(),
            r is Ok ==> final(store).commits() == old(store).commits() + 1,
            old(store).fails_begin() ==> r == Err::<(), TxError>(TxError::Acquisition) && final(store).begins() == old(store).begins(),
            !old(store).fails_begin() ==> final(store).begins() == old(store).begins() + 1 && (
            exists|repo0: Self::TxRepository, out: Result<Self::TxRepository, TxError>|
                repo0.held() == Writes::empty() && repo0.snapshot() == old(store).contents()
                    && #[trigger] call_ensures(f, (repo0,), out) && (match out {
                    Result::Ok(done) => {
                        if old(store).fails_commit() {
                            r == Err::<(), TxError>(TxError::Commit)
                        } else {
                            r == Ok::<(), TxError>(()) && final(store).contents() == old(store).contents().merged(done.held())
                        }
                    },
                    Result::Err(e) => r == Err::<(), TxError>(e),
                })),
    ;
}

impl<R: Tx + GetExecutor> Begin for R {
    fn begin<F: FnOnce(Self::TxRepository) -> Result<Self::TxRepository, TxError>>(
        &self,
        store: &mut Store,
        f: F,
    ) -> (r: Result<(), TxError>) {
        let _pool = self.get_executor();
        let tx = match store.begin_transaction() {
            Result::Ok(tx) => tx,
            Result::Err(e) => {
                return Result::Err(e);
            },
        };
        let repo = Self::TxRepository::from_handle(tx);
        let out = f(repo);
        match out {
            Result::Ok(done) => store.commit(done.into_handle()),
            Result::Err(e) => Result::Err(e),
        }
    }
}

/// Delegation inside a running session: a transaction-bound repository hands
/// the live handle to a unit of work running under a *different* repository
/// type and receives it back on success.
pub trait Chainable: Tx + TxBound {
    /// Move the handle out of `self`, rebuild it as `Other`'s
    /// transaction-bound shape, run `g` exactly once on it, and on success
    /// rebuild `self`'s own transaction-bound shape around the returned
    /// handle. On failure the handle is not returned at all, so the failure
    /// reaches the enclosing `begin`, which rolls the session back.
    ///
    /// The contract makes delegation transparent: the unit of work starts
    /// from exactly the writes and snapshot `self` held, and the returned
    /// repository holds exactly the writes and snapshot the unit of work
    /// ended with — the step contributes precisely its own writes, no
    /// matter which repository type performed them or how deeply chains
    /// nest.
    fn chain<Other: Tx, G: FnOnce(Other::TxRepository) -> Result<Other::TxRepository, TxError>>(
        self,
        other: &Other,
        g: G,
    ) -> (r: Result<Self::TxRepository, TxError>)
        requires
            forall|o: Other::TxRepository|
                (o.held() == self.held() && o.snapshot() == self.snapshot()
                    && o.is_transactional()) ==> #[trigger] call_requires(g, (o,)),
        ensures
            r matches Ok(next) ==> exists|
                o0: Other::TxRepository,
                o1: Other::TxRepository,
            |
                o0.held() == self.held() && o0.snapshot() == self.snapshot() && #[trigger]
                call_ensures(g, (o0,), Result::Ok(o1)) && next.held() == o1.held()
                    && next.snapshot() == o1.snapshot(),
            r matches Err(e) ==> exists|o0: Other::TxRepository|
                o0.held() == self.held() && o0.snapshot() == self.snapshot() && #[trigger]
                call_ensures(g, (o0,), Result::Err::<Other::TxRepository, TxError>(e)),
    ;
}

impl<R: Tx + TxBound> Chainable for R {
    fn chain<Other: Tx, G: FnOnce(Other::TxRepository) -> Result<Other::TxRepository, TxError>>(
        self,
        other: &Other,
        g: G,
    ) -> (r: Result<Self::TxRepository, TxError>) {
        let tx = self.into_handle();
        let o = <Other::TxRepository as TxBound>::from_handle(tx);
        match g(o) {
            Result::Ok(done) => {
                let tx = done.into_handle();
                Result::Ok(Self::TxRepository::from_handle(tx))
            },
            Result::Err(e) => Result::Err(e),
        }
    }
}

} // verus!
