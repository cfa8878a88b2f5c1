//! Leases on uploads in progress.
//!
//! Between two requests the state of an upload rests in a table, under a
//! deadline. A request checks the state out; when it is done, the state
//! comes back under a new deadline. What rests past its deadline is evicted.

use crate::err::{Response, NOT_FOUND};
use crate::id::SessionId;
use std::collections::BTreeMap;
use std::collections::HashMap;
use vstd::prelude::*;

pub mod upload;

verus! {

/// Milliseconds that a state may rest in the table.
pub const LEASE_MILLIS: u64 = 60_000;

/// Milliseconds until the next look at an empty table.
pub const IDLE_MILLIS: u64 = 86_400_000;

/// A resting state: the state itself and its place in the order of
/// eviction, a deadline and a number that tells entries with one deadline
/// apart.
pub struct Entry<S> {
    pub state: S,
    pub evict: (u64, u64),
}

/// A state that was evicted, with the id it rested under.
pub struct Expired<S> {
    pub id: SessionId,
    pub state: S,
}

/// A request to the table.
pub enum StateReq<S> {
    /// Put this state to rest under this id.
    Insert(SessionId, S),
    /// Check out the state that rests under this id.
    Get(SessionId),
}

/// A state that a request has checked out of the table. It is either
/// completed, which spends it, or released, which puts it back to rest.
pub struct UploadStateLease<S> {
    id: SessionId,
    state: S,
}

impl<S> View for UploadStateLease<S> {
    type V = (SessionId, S);

    /// The id that the state was checked out under, and the state.
    closed spec fn view(&self) -> (SessionId, S) {
        (self.id, self.state)
    }
}

impl<S> UploadStateLease<S> {
    /// Makes a lease of the table's answer to a get for `id`. Where nothing
    /// rested under `id`, the client is told that the upload is not found.
    pub fn checkout(id: SessionId, answer: Option<S>) -> (lease: Result<Self, Response>)
        ensures
            match answer {
                Some(state) => lease matches Ok(held) && held@ == (id, state),
                None => lease matches Err(response) && response.shows(NOT_FOUND, Seq::empty()),
            },
    {
        match answer {
            Some(state) => Ok(UploadStateLease { id, state }),
            None => Err(Response { status: NOT_FOUND, body: String::new() }),
        }
    }

    /// Checks out the state that a request asks for by the text of its id.
    /// Where the text names no session, or nothing rests under the id, the
    /// client is told that the upload is not found, and the table stays as
    /// it is. Else the state leaves the table and comes as a lease.
    pub fn from_request_parts(table: &mut State<S>, id: &str) -> (lease: Result<Self, Response>)
        requires
            old(table).wf(),
        ensures
            final(table).wf(),
            leased(old(table)@, id@, final(table)@, lease),
    {
        match SessionId::parse(id) {
            Some(session) => {
                let answer = table.get(session);
                assert(answer is None ==> table@ =~= old(table)@);
                UploadStateLease::checkout(session, answer)
            },
            None => UploadStateLease::checkout(SessionId(0), None),
        }
    }

    /// The id that the state was checked out under.
    pub fn id(&self) -> (id: SessionId)
        ensures
            id == self@.0,
    {
        self.id
    }

    /// The state, to submit the next chunk to.
    pub fn submit(&mut self) -> (state: &mut S)
        ensures
            *state == old(self)@.1,
            final(self)@ == (old(self)@.0, *final(state)),
    {
        &mut self.state
    }

    /// Ends the lease by completing the upload: hands out the state, which
    /// does not go back to the table.
    pub fn complete(self) -> (state: S)
        ensures
            state == self@.1,
    {
        self.state
    }

    /// Ends the lease without completing the upload: the request that puts
    /// the state back to rest under its id.
    pub fn release(self) -> (req: StateReq<S>)
        ensures
            req == StateReq::Insert(self@.0, self@.1),
    {
        StateReq::Insert(self.id, self.state)
    }
}

/// What a request for the session with the text `id` gets from the table
/// `m`, and the table `after` it.
pub open spec fn leased<S>(
    m: Map<u128, Entry<S>>,
    id: Seq<char>,
    after: Map<u128, Entry<S>>,
    lease: Result<UploadStateLease<S>, Response>,
) -> bool {
    match SessionId::read(id) {
        Some(session) if m.contains_key(session.0) => {
            &&& lease matches Ok(held)
            &&& held@ == (session, m[session.0].state)
            &&& after == m.remove(session.0)
        },
        _ => {
            &&& lease matches Err(response)
            &&& response.shows(NOT_FOUND, Seq::empty())
            &&& after == m
        },
    }
}

/// The caller's side of the table. It builds the requests that go to it.
#[derive(Clone, Copy, Debug)]
pub struct StateHandle {}

impl StateHandle {
    /// A handle and the empty table that it speaks to.
    pub fn start_new<S>() -> (begun: (StateHandle, State<S>))
        ensures
            begun.1.wf(),
            begun.1@ == Map::<u128, Entry<S>>::empty(),
    {
        (StateHandle {  }, State::new())
    }

    /// The request that puts the state of a new upload to rest.
    pub fn insert<S>(&self, id: SessionId, ups: S) -> (req: StateReq<S>)
        ensures
            req == StateReq::Insert(id, ups),
    {
        StateReq::Insert(id, ups)
    }
}

/// Names a new upload: an id drawn from the clock and random bits, a UUID
/// of version 7, and the path of the file to create for it.
pub fn bootstrap_upload() -> (named: (SessionId, String))
    ensures
        named.0.version() == 7,
        named.0.is_rfc4122(),
        named.1@ == named.0.path(),
{
    let id = SessionId::generate();
    let path = id.destination();
    (id, path)
}

/// Whether `a` comes before `b` in the order of eviction.
pub open spec fn before(a: (u64, u64), b: (u64, u64)) -> bool {
    a.0 < b.0 || (a.0 == b.0 && a.1 < b.1)
}

/// Whether the place `evict` is due at time `now`.
pub open spec fn lapsed(evict: (u64, u64), now: u64) -> bool {
    before(evict, (now, u64::MAX))
}

/// Whether some entry of `m` has the place `evict`.
pub open spec fn taken<S>(m: Map<u128, Entry<S>>, evict: (u64, u64)) -> bool {
    exists|id: u128| #[trigger] m.contains_key(id) && m[id].evict == evict
}

/// Whether `sub` is the least number that is free under `deadline` in `m`.
pub open spec fn first_free<S>(m: Map<u128, Entry<S>>, deadline: u64, sub: u64) -> bool {
    &&& !taken(m, (deadline, sub))
    &&& forall|j: u64| j < sub ==> taken(m, (deadline, j))
}

/// Whether a sweep of the table `m` at time `now` leaves `stay` and hands
/// out `gone`: what is due leaves, the rest stays as it is, and what left is
/// handed out whole, each entry once, in the order of eviction.
pub open spec fn swept<S>(
    m: Map<u128, Entry<S>>,
    now: u64,
    stay: Map<u128, Entry<S>>,
    gone: Seq<Expired<S>>,
) -> bool {
    &&& forall|id: u128| #[trigger]
        stay.contains_key(id) <==> m.contains_key(id) && !lapsed(m[id].evict, now)
    &&& forall|id: u128| #[trigger] stay.contains_key(id) ==> stay[id] == m[id]
    &&& forall|i: int|
        0 <= i < gone.len() ==> {
            &&& m.contains_key((#[trigger] gone[i]).id.0)
            &&& m[gone[i].id.0].state == gone[i].state
            &&& lapsed(m[gone[i].id.0].evict, now)
        }
    &&& forall|i: int, j: int|
        0 <= i < j < gone.len() ==> before(
            m[(#[trigger] gone[i]).id.0].evict,
            m[(#[trigger] gone[j]).id.0].evict,
        )
    &&& forall|id: u128|
        #[trigger] m.contains_key(id) && lapsed(m[id].evict, now) ==> exists|i: int|
            0 <= i < gone.len() && (#[trigger] gone[i]).id.0 == id
}

/// A sweep under way: `stay` is what is left of `m`, and `gone` holds what
/// has left so far, in the order of eviction and before all that is left.
spec fn sweeping<S>(
    m: Map<u128, Entry<S>>,
    now: u64,
    stay: Map<u128, Entry<S>>,
    gone: Seq<Expired<S>>,
) -> bool {
    &&& forall|id: u128| #[trigger] stay.contains_key(id) ==> m.contains_key(id) && stay[id] == m[id]
    &&& forall|id: u128|
        #[trigger] m.contains_key(id) && !stay.contains_key(id) ==> lapsed(m[id].evict, now)
            && exists|i: int| 0 <= i < gone.len() && (#[trigger] gone[i]).id.0 == id
    &&& forall|i: int|
        0 <= i < gone.len() ==> {
            &&& m.contains_key((#[trigger] gone[i]).id.0)
            &&& !stay.contains_key(gone[i].id.0)
            &&& m[gone[i].id.0].state == gone[i].state
            &&& lapsed(m[gone[i].id.0].evict, now)
        }
    &&& forall|i: int, j: int|
        0 <= i < j < gone.len() ==> before(
            m[(#[trigger] gone[i]).id.0].evict,
            m[(#[trigger] gone[j]).id.0].evict,
        )
    &&& forall|i: int, id: u128|
        0 <= i < gone.len() && #[trigger] stay.contains_key(id) ==> before(
            m[(#[trigger] gone[i]).id.0].evict,
            stay[id].evict,
        )
}

/// One step of a sweep: the first of what is left is due, and leaves.
proof fn lemma_sweep_step<S>(
    m: Map<u128, Entry<S>>,
    now: u64,
    stay: Map<u128, Entry<S>>,
    gone: Seq<Expired<S>>,
    id: u128,
)
    requires
        sweeping(m, now, stay, gone),
        stay.contains_key(id),
        lapsed(stay[id].evict, now),
        forall|other: u128| #[trigger]
            stay.contains_key(other) ==> other == id || before(stay[id].evict, stay[other].evict),
    ensures
        sweeping(
            m,
            now,
            stay.remove(id),
            gone.push(Expired { id: SessionId(id), state: stay[id].state }),
        ),
{
    let left = stay.remove(id);
    let out = gone.push(Expired { id: SessionId(id), state: stay[id].state });
    assert(out[gone.len() as int].id.0 == id);
    assert forall|i: int| 0 <= i < gone.len() implies out[i] == gone[i] by {}
    assert forall|other: u128| #[trigger] m.contains_key(other) && !left.contains_key(
        other,
    ) implies lapsed(m[other].evict, now) && exists|i: int|
        0 <= i < out.len() && (#[trigger] out[i]).id.0 == other by {
        if other == id {
            assert(out[gone.len() as int].id.0 == other);
        } else {
            assert(!stay.contains_key(other));
            let i = choose|i: int| 0 <= i < gone.len() && (#[trigger] gone[i]).id.0 == other;
            assert(out[i].id.0 == other);
        }
    }
    assert forall|i: int, j: int| 0 <= i < j < out.len() implies before(
        m[(#[trigger] out[i]).id.0].evict,
        m[(#[trigger] out[j]).id.0].evict,
    ) by {
        assert(out[i] == gone[i]);
        if j < gone.len() {
            assert(out[j] == gone[j]);
        }
    }
    assert forall|i: int, other: u128|
        0 <= i < out.len() && #[trigger] left.contains_key(other) implies before(
        m[(#[trigger] out[i]).id.0].evict,
        left[other].evict,
    ) by {
        assert(stay.contains_key(other));
        if i < gone.len() {
            assert(out[i] == gone[i]);
        }
    }
}

/// The end of a sweep: nothing of what is left is due.
proof fn lemma_sweep_done<S>(
    m: Map<u128, Entry<S>>,
    now: u64,
    stay: Map<u128, Entry<S>>,
    gone: Seq<Expired<S>>,
)
    requires
        sweeping(m, now, stay, gone),
        forall|id: u128| #[trigger] stay.contains_key(id) ==> !lapsed(stay[id].evict, now),
    ensures
        swept(m, now, stay, gone),
{
}

/// Whether `wake` is the time of the next look at the table `m`: the
/// earliest deadline in it, or, if it is empty, `IDLE_MILLIS` from `now`.
pub open spec fn next_look<S>(m: Map<u128, Entry<S>>, now: u64, wake: u64) -> bool {
    if forall|id: u128| !m.contains_key(id) {
        wake == now + IDLE_MILLIS
    } else {
        &&& exists|id: u128| #[trigger] m.contains_key(id) && m[id].evict.0 == wake
        &&& forall|id: u128| #[trigger] m.contains_key(id) ==> m[id].evict.0 >= wake
    }
}

/// The state that rests under `id` in `m`, if any.
pub open spec fn resting<S>(m: Map<u128, Entry<S>>, id: SessionId) -> Option<S> {
    if m.contains_key(id.0) {
        Some(m[id.0].state)
    } else {
        None
    }
}

/// Calls `BTreeMap::first_key_value` and copies the pair out. Trusted, as
/// std documents it: the pair is in the map and its key is the minimum key
/// of the map, in the order of tuples; `None` means that the map is empty.
#[verifier::external_body]
fn first_entry(index: &BTreeMap<(u64, u64), u128>) -> (first: Option<((u64, u64), u128)>)
    ensures
        match first {
            Some((evict, id)) => {
                &&& index@.contains_key(evict)
                &&& index@[evict] == id
                &&& forall|other: (u64, u64)| #[trigger]
                    index@.contains_key(other) ==> other == evict || before(evict, other)
            },
            None => forall|other: (u64, u64)| !index@.contains_key(other),
        },
{
    index.first_key_value().map(|(evict, id)| (*evict, *id))
}

/// If the places `(deadline, 0)` to `(deadline, n - 1)` are all in a finite
/// index, the index has at least `n` entries.
proof fn lemma_places_counted(index: Map<(u64, u64), u128>, deadline: u64, n: nat)
    requires
        index.dom().finite(),
        n <= u64::MAX + 1,
        forall|j: u64| j < n ==> index.contains_key((deadline, j)),
    ensures
        n <= index.len(),
    decreases n,
{
    if n > 0 {
        let last: u64 = (n - 1) as u64;
        let rest = index.remove((deadline, last));
        assert forall|j: u64| j < n - 1 implies rest.contains_key((deadline, j)) by {
            assert(index.contains_key((deadline, j)));
        }
        lemma_places_counted(rest, deadline, (n - 1) as nat);
        assert(index.contains_key((deadline, last)));
    }
}

/// The table of resting states, with an index of them in the order of
/// eviction. `S` is the state; the table never looks inside one.
pub struct State<S> {
    states: HashMap<u128, Entry<S>>,
    timeouts: BTreeMap<(u64, u64), u128>,
}

impl<S> View for State<S> {
    type V = Map<u128, Entry<S>>;

    /// The resting states, by the 128-bit value of their ids.
    closed spec fn view(&self) -> Map<u128, Entry<S>> {
        self.states@
    }
}

impl<S> State<S> {
    /// The index and the table hold the same entries: each state's place is
    /// in the index and leads back to its id, and the index holds nothing
    /// else. So no two states share a place.
    pub closed spec fn wf(&self) -> bool {
        &&& forall|id: u128| #[trigger]
            self.states@.contains_key(id) ==> self.timeouts@.contains_key(self.states@[id].evict)
                && self.timeouts@[self.states@[id].evict] == id
        &&& forall|evict: (u64, u64)| #[trigger]
            self.timeouts@.contains_key(evict) ==> self.states@.contains_key(
                self.timeouts@[evict],
            ) && self.states@[self.timeouts@[evict]].evict == evict
    }

    /// In a well-formed table no two states share a place.
    pub proof fn law_places_differ(&self, a: u128, b: u128)
        requires
            self.wf(),
            self@.contains_key(a),
            self@.contains_key(b),
            self@[a].evict == self@[b].evict,
        ensures
            a == b,
    {
    }

    /// An empty table.
    pub fn new() -> (table: Self)
        ensures
            table.wf(),
            table@ == Map::<u128, Entry<S>>::empty(),
    {
        State { states: HashMap::new(), timeouts: BTreeMap::new() }
    }

    /// Puts `state` to rest under `id`, due `LEASE_MILLIS` from `now`, at
    /// the first free place under that deadline. A state that already rests
    /// under `id` leaves the table and is handed back.
    pub fn insert(&mut self, now: u64, id: SessionId, state: S) -> (replaced: Option<S>)
        requires
            old(self).wf(),
            now + LEASE_MILLIS <= u64::MAX,
        ensures
            final(self).wf(),
            replaced == resting(old(self)@, id),
            final(self)@ == old(self)@.insert(
                id.0,
                Entry { state, evict: final(self)@[id.0].evict },
            ),
            final(self)@[id.0].evict.0 == now + LEASE_MILLIS,
            first_free(
                old(self)@.remove(id.0),
                (now + LEASE_MILLIS) as u64,
                final(self)@[id.0].evict.1,
            ),
    {
        let replaced = match self.states.remove(&id.0) {
            Some(entry) => {
                self.timeouts.remove(&entry.evict);
                Some(entry.state)
            },
            None => None,
        };
        let deadline: u64 = now + LEASE_MILLIS;
        let mut sub: u64 = 0;
        proof {
            // A map in memory has no more entries than `usize` can count.
            assert(self.timeouts@.len() == vstd::std_specs::btree::spec_btree_map_len(
                &self.timeouts,
            ));
        }
        while self.timeouts.contains_key(&(deadline, sub))
            invariant
                self.wf(),
                self@ == old(self)@.remove(id.0),
                self.timeouts@.len() <= usize::MAX,
                self.timeouts@.dom().finite(),
                forall|j: u64| j < sub ==> self.timeouts@.contains_key((deadline, j)),
            decreases u64::MAX - sub,
        {
            proof {
                lemma_places_counted(self.timeouts@, deadline, (sub + 1) as nat);
            }
            sub += 1;
        }
        proof {
            let base = old(self)@.remove(id.0);
            assert(!taken(base, (deadline, sub))) by {
                if taken(base, (deadline, sub)) {
                    let holder = choose|h: u128| #[trigger]
                        base.contains_key(h) && base[h].evict == (deadline, sub);
                    assert(self.states@.contains_key(holder));
                }
            }
            assert forall|j: u64| j < sub implies taken(base, (deadline, j)) by {
                assert(self.timeouts@.contains_key((deadline, j)));
                let holder = self.timeouts@[(deadline, j)];
                assert(base.contains_key(holder) && base[holder].evict == (deadline, j));
            }
        }
        self.states.insert(id.0, Entry { state, evict: (deadline, sub) });
        self.timeouts.insert((deadline, sub), id.0);
        assert(self@ =~= old(self)@.insert(id.0, Entry { state, evict: (deadline, sub) }));
        replaced
    }

    /// Checks out the state that rests under `id`: it leaves the table and
    /// the index. `None` if nothing rests there.
    pub fn get(&mut self, id: SessionId) -> (state: Option<S>)
        requires
            old(self).wf(),
        ensures
            final(self).wf(),
            state == resting(old(self)@, id),
            final(self)@ == old(self)@.remove(id.0),
    {
        match self.states.remove(&id.0) {
            Some(entry) => {
                self.timeouts.remove(&entry.evict);
                Some(entry.state)
            },
            None => None,
        }
    }

    /// Serves one request at time `now`. An insert hands back the state that
    /// was replaced, if any; a get hands out the state that was checked out,
    /// if any.
    pub fn handle_req(&mut self, now: u64, req: StateReq<S>) -> (state: Option<S>)
        requires
            old(self).wf(),
            req is Insert ==> now + LEASE_MILLIS <= u64::MAX,
        ensures
            final(self).wf(),
            match req {
                StateReq::Insert(id, put) => {
                    &&& state == resting(old(self)@, id)
                    &&& final(self)@ == old(self)@.insert(
                        id.0,
                        Entry { state: put, evict: final(self)@[id.0].evict },
                    )
                    &&& final(self)@[id.0].evict.0 == now + LEASE_MILLIS
                    &&& first_free(
                        old(self)@.remove(id.0),
                        (now + LEASE_MILLIS) as u64,
                        final(self)@[id.0].evict.1,
                    )
                },
                StateReq::Get(id) => {
                    &&& state == resting(old(self)@, id)
                    &&& final(self)@ == old(self)@.remove(id.0)
                },
            },
    {
        match req {
            StateReq::Insert(id, put) => self.insert(now, id, put),
            StateReq::Get(id) => self.get(id),
        }
    }

    /// Evicts what is due at time `now` and tells when to look again.
    ///
    /// An entry is due when its place comes before `(now, u64::MAX)`. The
    /// evicted states are handed out in the order of eviction, each to be
    /// rolled back by the caller. The time of the next look is the earliest
    /// deadline that remains, or `IDLE_MILLIS` from `now` if none does.
    pub fn timeout_routine(&mut self, now: u64) -> (r: (Vec<Expired<S>>, u64))
        requires
            old(self).wf(),
            now + IDLE_MILLIS <= u64::MAX,
        ensures
            final(self).wf(),
            swept(old(self)@, now, final(self)@, r.0@),
            next_look(final(self)@, now, r.1),
    {
        let mut expired: Vec<Expired<S>> = Vec::new();
        let mut wake: u64 = now + IDLE_MILLIS;
        loop
            invariant_except_break
                self.wf(),
                self.timeouts@.dom().finite(),
                sweeping(old(self)@, now, self@, expired@),
                now + IDLE_MILLIS <= u64::MAX,
            ensures
                self.wf(),
                swept(old(self)@, now, self@, expired@),
                next_look(self@, now, wake),
            decreases self.timeouts@.len(),
        {
            let first = first_entry(&self.timeouts);
            proof {
                // By the index, what holds of every place holds of every entry.
                assert forall|other: u128| #[trigger] self@.contains_key(other) implies match first {
                    Some((evict, id)) => other == id || before(evict, self@[other].evict),
                    None => false,
                } by {
                    assert(self.timeouts@.contains_key(self@[other].evict));
                }
            }
            match first {
                Some((evict, id)) => {
                    if evict.0 < now || (evict.0 == now && evict.1 < u64::MAX) {
                        proof {
                            lemma_sweep_step(old(self)@, now, self@, expired@, id);
                        }
                        self.timeouts.remove(&evict);
                        match self.states.remove(&id) {
                            Some(entry) => expired.push(
                                Expired { id: SessionId(id), state: entry.state },
                            ),
                            None => {},
                        }
                    } else {
                        wake = evict.0;
                        proof {
                            assert(self@.contains_key(id) && self@[id].evict.0 == wake);
                            lemma_sweep_done(old(self)@, now, self@, expired@);
                        }
                        break ;
                    }
                },
                None => {
                    wake = now + IDLE_MILLIS;
                    proof {
                        lemma_sweep_done(old(self)@, now, self@, expired@);
                    }
                    break ;
                },
            }
        }
        (expired, wake)
    }
}

} // verus!
