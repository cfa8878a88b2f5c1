//! What holds of the routing table over time.
//!
//! The table changes in two ways only: a worker registers, or an entry is
//! evicted. The dispatcher's functions are stated as such changes, and the
//! laws below follow the table through any sequence of them: so they hold
//! of every table that a dispatcher ever comes to hold.

use crate::id::SessionId;
use crate::store::{
    admitted, append_outcome, dispatch, Answer, AppendResult, ChunkReq, DSReq, Dispatch,
};
use vstd::prelude::*;

verus! {

/// One change to the routing table.
pub enum Change<C> {
    /// A worker registers its channel under its session's id.
    Register(SessionId, C),
    /// The entry of a session is removed.
    Evict(SessionId),
}

/// Whether `change` may be made to `routes`: a worker may register only
/// under an id that is not routable.
pub open spec fn allowed<C>(routes: Map<u128, C>, change: Change<C>) -> bool {
    match change {
        Change::Register(id, _) => !routes.contains_key(id.0),
        Change::Evict(_) => true,
    }
}

/// The table after `change`.
pub open spec fn apply<C>(routes: Map<u128, C>, change: Change<C>) -> Map<u128, C> {
    match change {
        Change::Register(id, sender) => routes.insert(id.0, sender),
        Change::Evict(id) => routes.remove(id.0),
    }
}

/// The table after all of `changes`, made to `routes` in order.
pub open spec fn apply_all<C>(routes: Map<u128, C>, changes: Seq<Change<C>>) -> Map<u128, C>
    decreases changes.len(),
{
    if changes.len() == 0 {
        routes
    } else {
        apply(apply_all(routes, changes.drop_last()), changes.last())
    }
}

/// Whether each of `changes` was allowed when it was made, starting from
/// `routes`.
pub open spec fn orderly<C>(routes: Map<u128, C>, changes: Seq<Change<C>>) -> bool
    decreases changes.len(),
{
    changes.len() == 0 || {
        &&& orderly(routes, changes.drop_last())
        &&& allowed(apply_all(routes, changes.drop_last()), changes.last())
    }
}

/// The workers that hold `id` after `changes`: those that registered under
/// it and whose entry has not been evicted since, oldest first.
pub open spec fn holders<C>(changes: Seq<Change<C>>, id: SessionId) -> Seq<C>
    decreases changes.len(),
{
    if changes.len() == 0 {
        Seq::empty()
    } else {
        let before = holders(changes.drop_last(), id);
        match changes.last() {
            Change::Register(other, sender) => if other == id {
                before.push(sender)
            } else {
                before
            },
            Change::Evict(other) => if other == id {
                Seq::empty()
            } else {
                before
            },
        }
    }
}

/// Whether one of `changes` registers a worker under `id`.
pub open spec fn registers<C>(changes: Seq<Change<C>>, id: SessionId) -> bool {
    exists|i: int|
        0 <= i < changes.len() && (#[trigger] changes[i] matches Change::Register(other, _)
            && other == id)
}

/// No two workers hold one id: after any orderly sequence of changes to an
/// empty table, at most one worker holds a given id, and it is the one that
/// the table routes to.
pub proof fn law_at_most_one_worker<C>(changes: Seq<Change<C>>, id: SessionId)
    requires
        orderly(Map::<u128, C>::empty(), changes),
    ensures
        holders(changes, id).len() <= 1,
        holders(changes, id).len() == 1 <==> apply_all(Map::<u128, C>::empty(), changes).contains_key(
            id.0,
        ),
        holders(changes, id).len() == 1 ==> apply_all(Map::<u128, C>::empty(), changes)[id.0]
            == holders(changes, id)[0],
    decreases changes.len(),
{
    if changes.len() > 0 {
        law_at_most_one_worker(changes.drop_last(), id);
    }
}

/// Whether one of the changes strictly between the `i`-th and the `j`-th
/// evicts the entry of `id`.
pub open spec fn evicted_between<C>(changes: Seq<Change<C>>, id: SessionId, i: int, j: int) -> bool {
    exists|k: int| i < k < j && (#[trigger] changes[k] matches Change::Evict(other) && other == id)
}

/// The first `n` of an orderly sequence of changes are orderly, and the
/// next one is allowed after them.
proof fn lemma_prefix_orderly<C>(routes: Map<u128, C>, changes: Seq<Change<C>>, n: int)
    requires
        orderly(routes, changes),
        0 <= n <= changes.len(),
    ensures
        orderly(routes, changes.take(n)),
        n < changes.len() ==> allowed(apply_all(routes, changes.take(n)), changes[n]),
    decreases changes.len(),
{
    if n == changes.len() {
        assert(changes.take(n) =~= changes);
    } else if n == changes.len() - 1 {
        assert(changes.take(n) =~= changes.drop_last());
    } else {
        assert(changes.drop_last().take(n) =~= changes.take(n));
        lemma_prefix_orderly(routes, changes.drop_last(), n);
    }
}

/// An id that a worker registered under stays routable until its entry is
/// evicted.
proof fn lemma_held_until_evicted<C>(changes: Seq<Change<C>>, id: SessionId, i: int, n: int)
    requires
        0 <= i < n <= changes.len(),
        changes[i] matches Change::Register(other, _) && other == id,
        !evicted_between(changes, id, i, n),
    ensures
        apply_all(Map::<u128, C>::empty(), changes.take(n)).contains_key(id.0),
    decreases n,
{
    assert(changes.take(n).drop_last() =~= changes.take(n - 1));
    assert(changes.take(n).last() == changes[n - 1]);
    if n > i + 1 {
        assert(!evicted_between(changes, id, i, n - 1)) by {
            if evicted_between(changes, id, i, n - 1) {
                let k = choose|k: int|
                    i < k < n - 1 && (#[trigger] changes[k] matches Change::Evict(other) && other
                        == id);
                assert(i < k < n);
            }
        }
        lemma_held_until_evicted(changes, id, i, n - 1);
        assert(!(changes[n - 1] matches Change::Evict(other) && other == id));
    }
}

/// An id comes to a second worker only after the first has left the table:
/// between two registrations under one id, the entry of that id was
/// evicted. So the ids of the sessions that are open at one time are
/// pairwise distinct, whatever the source of the ids.
pub proof fn law_id_reused_only_after_eviction<C>(
    changes: Seq<Change<C>>,
    id: SessionId,
    i: int,
    j: int,
)
    requires
        orderly(Map::<u128, C>::empty(), changes),
        0 <= i < j < changes.len(),
        changes[i] matches Change::Register(first, _) && first == id,
        changes[j] matches Change::Register(second, _) && second == id,
    ensures
        evicted_between(changes, id, i, j),
{
    if !evicted_between(changes, id, i, j) {
        lemma_held_until_evicted(changes, id, i, j);
        lemma_prefix_orderly(Map::<u128, C>::empty(), changes, j);
    }
}

/// A chunk for an id that no worker ever registered is answered `Gone`.
pub proof fn law_unknown_is_gone<C>(req: ChunkReq)
    ensures
        dispatch::<C>(Map::empty(), DSReq::Chunk(req)) == Dispatch::<C>::Gone(req),
{
}

/// A chunk for a registered id goes to the worker that registered under it.
pub proof fn law_registered_is_routed<C>(routes: Map<u128, C>, sender: C, req: ChunkReq)
    ensures
        dispatch::<C>(routes.insert(req.id.0, sender), DSReq::Chunk(req)) == Dispatch::<
            C,
        >::Forward(&sender, req),
{
}

/// Registrations come before traffic: a chunk for an id whose worker was
/// waiting to register when the chunk was looked at is never answered
/// `Gone`. It goes to the worker that holds the id: the one that was
/// routable before, or else the first of those waiting under that id.
pub proof fn law_registrations_come_first<C>(
    routes: Map<u128, C>,
    waiting: Seq<(SessionId, C)>,
    j: int,
    req: ChunkReq,
)
    requires
        0 <= j < waiting.len(),
        waiting[j].0 == req.id,
    ensures
        admitted(routes, waiting).contains_key(req.id.0),
        dispatch::<C>(admitted(routes, waiting), DSReq::Chunk(req)) == Dispatch::<C>::Forward(
            &admitted(routes, waiting)[req.id.0],
            req,
        ),
        routes.contains_key(req.id.0) ==> admitted(routes, waiting)[req.id.0] == routes[req.id.0],
    decreases waiting.len(),
{
    if routes.contains_key(req.id.0) {
        lemma_admitted_keeps(routes, waiting, req.id);
    }
    if j < waiting.len() - 1 {
        law_registrations_come_first(routes, waiting.drop_last(), j, req);
    }
}

/// Admitting workers never changes an entry that is there.
proof fn lemma_admitted_keeps<C>(routes: Map<u128, C>, waiting: Seq<(SessionId, C)>, id: SessionId)
    requires
        routes.contains_key(id.0),
    ensures
        admitted(routes, waiting).contains_key(id.0),
        admitted(routes, waiting)[id.0] == routes[id.0],
    decreases waiting.len(),
{
    if waiting.len() > 0 {
        lemma_admitted_keeps(routes, waiting.drop_last(), id);
    }
}

/// Handling a request for one session never disturbs another: the decision
/// on a chunk depends on the entry of its own id alone.
pub proof fn law_sessions_are_isolated<C>(
    routes: Map<u128, C>,
    change: Change<C>,
    req: ChunkReq,
)
    requires
        match change {
            Change::Register(id, _) => id != req.id,
            Change::Evict(id) => id != req.id,
        },
    ensures
        dispatch::<C>(apply(routes, change), DSReq::Chunk(req)) == dispatch::<C>(
            routes,
            DSReq::Chunk(req),
        ),
{
}

/// Gone stays gone: once the entry of `id` has been evicted, every chunk
/// for it is answered `Gone`, whatever else happens to the table, until a
/// worker registers under `id` again.
pub proof fn law_gone_is_final<C>(
    routes: Map<u128, C>,
    changes: Seq<Change<C>>,
    req: ChunkReq,
)
    requires
        !registers(changes, req.id),
    ensures
        dispatch::<C>(apply_all(routes.remove(req.id.0), changes), DSReq::Chunk(req))
            == Dispatch::<C>::Gone(req),
    decreases changes.len(),
{
    if changes.len() > 0 {
        let earlier = changes.drop_last();
        assert forall|i: int| 0 <= i < earlier.len() implies !(#[trigger] earlier[i]
            matches Change::Register(other, _) && other == req.id) by {
            assert(earlier[i] == changes[i]);
        }
        law_gone_is_final(routes, earlier, req);
        assert(changes.last() == changes[changes.len() - 1]);
    }
}

/// A session that is gone is reported as `Gone`, never as a fault: whether
/// the dispatcher found no entry and dropped the request, or a worker's
/// answer said so.
pub proof fn law_gone_is_no_fault()
    ensures
        append_outcome(Answer::Dropped) == Ok::<AppendResult, crate::store::Fault>(
            AppendResult::Gone,
        ),
        append_outcome(Answer::Value(AppendResult::Gone)) == Ok::<AppendResult, crate::store::Fault>(
            AppendResult::Gone,
        ),
{
}

} // verus!
