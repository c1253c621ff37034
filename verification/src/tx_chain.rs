//! The accumulator shape of the protocol: `begin` returns a session value
//! holding the live handle, `and` runs further units of work against it —
//! each under whichever repository type it names — and an explicit `end`
//! commits. Same engine, same invariants as the nested-callback shape:
//! one handle, moved and never copied; one commit, at `end`, only if every
//! step succeeded; a failed step short-circuits before `end` is reached,
//! and the dropped handle rolls the session back.

use vstd::prelude::*;
use crate::store::{Handle, Store, TxError, Writes};
use crate::{Execute, GetExecutor, Tx, TxBound};

verus! {

/// Fixes the transaction-bound shape the accumulator API hands to a unit of
/// work. Every repository with a `Tx` binding gets it for free, so both
/// call shapes delegate to the same types.
pub trait TxType {
    type TxType: TxBound;
}

impl<R: Tx> TxType for R {
    type TxType = R::TxRepository;
}

/// A running session: the live transaction handle, waiting for further
/// steps or for the final commit. Like the handle it wraps, it is move-only
/// and every step consumes it, so a failed step leaves no session value to
/// go on with.
pub struct TxChain {
    tx: Handle,
}

impl TxChain {
    /// The writes the session has recorded so far, not yet durable.
    pub closed spec fn held(&self) -> Writes {
        self.tx.writes()
    }

    /// The durable contents the session's transaction sees.
    pub closed spec fn base(&self) -> Writes {
        self.tx.base()
    }

    /// Wrap an already-open transaction handle into a session value.
    pub fn new(tx: Handle) -> (c: Self)
        ensures
            c.held() == tx.writes(),
            c.base() == tx.base(),
    {
        TxChain { tx }
    }

    /// Run one more unit of work under the repository type `other` names.
    /// The handle moves into a transaction-bound repository of that type,
    /// through `f`, and back; on failure it is not returned, so the error
    /// short-circuits the whole chain before `end` can commit. The step
    /// contributes exactly the writes `f` records — delegation between
    /// repository types is invisible in the outcome.
    pub fn and<R: TxType, F: FnOnce(R::TxType) -> Result<R::TxType, TxError>>(
        self,
        other: &R,
        f: F,
    ) -> (r: Result<Self, TxError>)
        requires
            forall|o: R::TxType|
                (o.held() == self.held() && o.snapshot() == self.base()
                    && o.is_transactional()) ==> #[trigger] call_requires(f, (o,)),
        ensures
            r matches Ok(next) ==> exists|o0: R::TxType, o1: R::TxType|
                o0.held() == self.held() && o0.snapshot() == self.base() && #[trigger]
                call_ensures(f, (o0,), Result::Ok(o1)) && next.held() == o1.held()
                    && next.base() == o1.snapshot(),
            r matches Err(e) ==> exists|o0: R::TxType|
                o0.held() == self.held() && o0.snapshot() == self.base() && #[trigger]
                call_ensures(f, (o0,), Result::Err::<R::TxType, TxError>(e)),
    {
        let o = <R::TxType as TxBound>::from_handle(self.tx);
        match f(o) {
            Result::Ok(done) => {
                Result::Ok(TxChain { tx: done.into_handle() })
            },
            Result::Err(e) => Result::Err(e),
        }
    }

    /// Commit the session: every write the chain recorded becomes durable
    /// at once and exactly one commit is recorded — or the commit call
    /// fails, nothing becomes durable, and the session counts as rolled
    /// back.
    pub fn end(self, store: &mut Store) -> (r: Result<(), TxError>)
        requires
            old(store).commits() < u64::MAX,
        ensures
            final(store).begins() == old(store).begins(),
            final(store).fails_begin() == old(store).fails_begin(),
            final(store).fails_commit() == old(store).fails_commit(),
            !old(store).fails_commit() ==> r == Ok::<(), TxError>(()) && final(store).commits()
                == old(store).commits() + 1 && final(store).contents() == old(store).contents().merged(self.held()),
            old(store).fails_commit() ==> r == Err::<(), TxError>(TxError::Commit) && final(store).commits() == old(store).commits() && final(store).contents() == old(store).contents(),
    {
        store.commit(self.tx)
    }
}

/// Starting a session in the accumulator shape: acquire a transaction, run
/// the first unit of work, and hand back the open session for further `and`
/// steps. Only pool-bound repositories can begin.
pub trait Begin: TxType + Sized {
    /// Acquire a transaction and run `f` once on a repository bound to it.
    /// Nothing is committed here — the durable contents and the commit
    /// count are untouched whatever happens; commit waits for
    /// [`TxChain::end`]. On success the returned session holds exactly the
    /// writes `f` recorded; on failure the transaction is discarded and
    /// `f`'s error (or `TxError::Acquisition`) comes back unchanged.
    fn begin<F: FnOnce(Self::TxType) -> Result<Self::TxType, TxError>>(
        self,
        store: &mut Store,
        f: F,
    ) -> (r: Result<TxChain, TxError>)
        requires
            old(store).begins() < u64::MAX,
            forall|repo: Self::TxType|
                (repo.held() == Writes::empty() && repo.snapshot() == old(store).contents()
                    && repo.is_transactional()) ==> #[trigger] call_requires(f, (repo,)),
        ensures
            final(store).contents() == old(store).contents(),
            final(store).commits() == old(store).commits(),
            final(store).fails_begin() == old(store).fails_begin(),
            final(store).fails_commit() == old(store).fails_commit(),
            old(store).fails_begin() ==> (r matches Err(e) && e == TxError::Acquisition) && final(store).begins() == old(store).begins(),
            !old(store).fails_begin() ==> final(store).begins() == old(store).begins() + 1 && (
            exists|repo0: Self::TxType, out: Result<Self::TxType, TxError>|
                repo0.held() == Writes::empty() && repo0.snapshot() == old(store).contents()
                    && #[trigger] call_ensures(f, (repo0,), out) && (match out {
                    Result::Ok(done) => r matches Ok(chain) && chain.held() == done.held()
                        && chain.base() == done.snapshot(),
                    Result::Err(e) => r matches Err(e2) && e2 == e,
                })),
    ;
}

impl<R: TxType + GetExecutor> Begin for R {
    fn begin<F: FnOnce(Self::TxType) -> Result<Self::TxType, TxError>>(
        self,
        store: &mut Store,
        f: F,
    ) -> (r: Result<TxChain, TxError>) {
        let _pool = self.get_executor();
        let tx = match store.begin_transaction() {
            Result::Ok(tx) => tx,
            Result::Err(e) => {
                return Result::Err(e);
            },
        };
        let repo = <Self::TxType as TxBound>::from_handle(tx);
        match f(repo) {
            Result::Ok(done) => Result::Ok(TxChain::new(done.into_handle())),
            Result::Err(e) => Result::Err(e),
        }
    }
}

} // verus!
