//! The laws of the protocol that relate several operations, stated over the
//! same views the operations' own contracts use.

use vstd::prelude::*;
use crate::events::Event;
use crate::store::{Store, TxError, Writes};
use crate::users::User;
use crate::Execute;

verus! {

/// Merging an empty write-set changes nothing: a session that records no
/// writes leaves the durable contents exactly as they were.
pub proof fn lemma_merged_empty(c: Writes)
    ensures
        c.merged(Writes::empty()) == c,
{
    assert(c.users + Seq::<User>::empty() =~= c.users);
    assert(c.events + Seq::<Event>::empty() =~= c.events);
}

/// Write-sets merge associatively: the writes of nested steps reach the
/// durable contents as one concatenation, in step order, no matter how the
/// steps were grouped into chains.
pub proof fn lemma_merged_assoc(a: Writes, b: Writes, c: Writes)
    ensures
        a.merged(b).merged(c) == a.merged(b.merged(c)),
{
    assert((a.users + b.users) + c.users =~= a.users + (b.users + c.users));
    assert((a.events + b.events) + c.events =~= a.events + (b.events + c.events));
}

/// Nesting transparency: if every successful run of a unit of work appends
/// exactly the write-set `d` to whatever writes it is handed, then a
/// successful delegation of that work through `chain` or `and` — under any
/// other repository type — turns the caller's write-set into
/// `caller_held.merged(d)` and leaves the snapshot alone: exactly what
/// running the same operations flat, without the delegation, would have
/// done.
///
/// The hypotheses are the delegation's own postcondition and the behaviour
/// of the unit of work; the conclusion is that the chained and the
/// flattened form agree.
pub proof fn lemma_chain_transparent<Other: Execute, Next: Execute, F: FnOnce(Other) -> Result<
    Other,
    TxError,
>>(
    caller_held: Writes,
    caller_snapshot: Writes,
    f: F,
    d: Writes,
    r: Result<Next, TxError>,
)
    requires
        forall|o0: Other, o1: Other|
            #[trigger] call_ensures(f, (o0,), Result::Ok(o1)) ==> o1.held() == o0.held().merged(d)
                && o1.snapshot() == o0.snapshot(),
        r matches Ok(next) ==> exists|o0: Other, o1: Other|
            o0.held() == caller_held && o0.snapshot() == caller_snapshot && #[trigger]
            call_ensures(f, (o0,), Result::Ok(o1)) && next.held() == o1.held() && next.snapshot()
                == o1.snapshot(),
    ensures
        r matches Ok(next) ==> next.held() == caller_held.merged(d) && next.snapshot()
            == caller_snapshot,
{
}

/// Empty session: when the store is healthy and the unit of work always
/// succeeds without recording a write, the session commits — exactly once —
/// and the durable contents do not change.
///
/// The hypotheses are `begin`'s own postcondition for a session whose
/// acquisition succeeded, plus the behaviour of the unit of work.
pub proof fn lemma_empty_session<Repo: Execute, F: FnOnce(Repo) -> Result<Repo, TxError>>(
    pre: Store,
    post: Store,
    f: F,
    r: Result<(), TxError>,
)
    requires
        !pre.fails_commit(),
        forall|o0: Repo, out: Result<Repo, TxError>| #[trigger]
            call_ensures(f, (o0,), out) ==> (out matches Ok(o1) && o1.held() == o0.held()),
        r is Ok ==> post.commits() == pre.commits() + 1,
        exists|repo0: Repo, out: Result<Repo, TxError>|
            repo0.held() == Writes::empty() && #[trigger] call_ensures(f, (repo0,), out) && (
            match out {
                Result::Ok(done) => {
                    if pre.fails_commit() {
                        r == Err::<(), TxError>(TxError::Commit)
                    } else {
                        r == Ok::<(), TxError>(()) && post.contents() == pre.contents().merged(
                            done.held(),
                        )
                    }
                },
                Result::Err(e) => r == Err::<(), TxError>(e),
            }),
    ensures
        r == Ok::<(), TxError>(()),
        post.contents() == pre.contents(),
        post.commits() == pre.commits() + 1,
{
    let (repo0, out) = choose|repo0: Repo, out: Result<Repo, TxError>|
        repo0.held() == Writes::empty() && #[trigger] call_ensures(f, (repo0,), out) && (
        match out {
            Result::Ok(done) => {
                if pre.fails_commit() {
                    r == Err::<(), TxError>(TxError::Commit)
                } else {
                    r == Ok::<(), TxError>(()) && post.contents() == pre.contents().merged(
                        done.held(),
                    )
                }
            },
            Result::Err(e) => r == Err::<(), TxError>(e),
        });
    assert(out matches Ok(o1) && o1.held() == repo0.held());
    lemma_merged_empty(pre.contents());
}

} // verus!
