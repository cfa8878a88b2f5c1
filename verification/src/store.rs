//! The session store: requests, outcomes, the dispatcher's routing table and
//! the caller's handle.

use crate::id::SessionId;
use crate::payload::{check_metadata, content, metadata_fits};
use crate::store::routing::{allowed, apply, Change};
use bytes::Bytes;
use std::collections::HashMap;
use vstd::prelude::*;

pub mod artifacts;
pub mod routing;
pub mod worker;

verus! {

/// What an append did to its session.
#[derive(Clone, Copy, Debug, PartialEq, Eq, Structural)]
pub enum AppendResult {
    /// The chunk was written; more are expected.
    Continue,
    /// The session has just been completed by this (empty) chunk.
    Done,
    /// No such session: never opened, already ended, or evicted.
    Gone,
}

/// Asks for a new session holding the given metadata.
#[derive(Clone, Debug, PartialEq, Eq)]
pub struct InitReq {
    pub meta: Bytes,
}

/// Asks to append a chunk to a session. An empty chunk completes it.
#[derive(Clone, Debug, PartialEq, Eq)]
pub struct ChunkReq {
    pub id: SessionId,
    pub data: Bytes,
}

/// A request to the dispatcher.
#[derive(Clone, Debug, PartialEq, Eq)]
pub enum DSReq {
    Init(InitReq),
    Chunk(ChunkReq),
}

/// What the dispatcher does with a request.
pub enum Dispatch<'a, C> {
    /// Spawn a worker for this new session.
    Spawn(InitReq),
    /// Forward the request to the worker behind this channel.
    Forward(&'a C, ChunkReq),
    /// No worker is known for the session: the answer is [`AppendResult::Gone`].
    Gone(ChunkReq),
}

/// The dispatcher's decision on `msg` when its routing table is `routes`.
pub open spec fn dispatch<'a, C>(routes: Map<u128, C>, msg: DSReq) -> Dispatch<'a, C> {
    match msg {
        DSReq::Init(req) => Dispatch::Spawn(req),
        DSReq::Chunk(req) => if routes.contains_key(req.id.0) {
            Dispatch::Forward(&routes[req.id.0], req)
        } else {
            Dispatch::Gone(req)
        },
    }
}

/// The routing table after the workers in `waiting` have registered, one
/// after the other; one whose id is routable when its turn comes is passed
/// over.
pub open spec fn admitted<C>(routes: Map<u128, C>, waiting: Seq<(SessionId, C)>) -> Map<u128, C>
    decreases waiting.len(),
{
    if waiting.len() == 0 {
        routes
    } else {
        let before = admitted(routes, waiting.drop_last());
        if before.contains_key(waiting.last().0.0) {
            before
        } else {
            before.insert(waiting.last().0.0, waiting.last().1)
        }
    }
}

/// Those of `waiting` that are passed over when they register one after the
/// other, in their order.
pub open spec fn passed_over<C>(routes: Map<u128, C>, waiting: Seq<(SessionId, C)>) -> Seq<
    (SessionId, C),
>
    decreases waiting.len(),
{
    if waiting.len() == 0 {
        Seq::empty()
    } else {
        let before = passed_over(routes, waiting.drop_last());
        if admitted(routes, waiting.drop_last()).contains_key(waiting.last().0.0) {
            before.push(waiting.last())
        } else {
            before
        }
    }
}

/// Capacity of the dispatcher's two inbound queues.
pub const DISPATCHER_QUEUE: usize = 64;

/// Capacity of a worker's inbound queue.
pub const WORKER_QUEUE: usize = 1;

/// The dispatcher: it owns the routing table from session ids to the inbound
/// channels of their workers. `C` is the channel type; the dispatcher never
/// looks inside one.
pub struct DataStore<C> {
    active: HashMap<u128, C>,
}

impl<C> View for DataStore<C> {
    type V = Map<u128, C>;

    /// The routing table: the 128-bit value of each routable id, and the
    /// channel it routes to.
    closed spec fn view(&self) -> Map<u128, C> {
        self.active@
    }
}

impl<C> DataStore<C> {
    /// Whether requests for `id` are routed to a worker.
    pub open spec fn routes(&self, id: SessionId) -> bool {
        self@.contains_key(id.0)
    }

    /// A dispatcher that knows no session.
    pub fn new() -> (store: Self)
        ensures
            store@ == Map::<u128, C>::empty(),
    {
        DataStore { active: HashMap::new() }
    }

    /// Tells whether requests for `id` are routed to a worker.
    pub fn is_active(&self, id: SessionId) -> (routed: bool)
        ensures
            routed == self.routes(id),
    {
        self.active.contains_key(&id.0)
    }

    /// Enters a new worker into the routing table.
    ///
    /// A worker registers once, under an id that the database has just
    /// issued: to register an id that is still routable is a programming
    /// error, and the precondition rules it out.
    pub fn register(&mut self, id: SessionId, sender: C)
        requires
            allowed(old(self)@, Change::Register(id, sender)),
        ensures
            final(self)@ == apply(old(self)@, Change::Register(id, sender)),
            final(self)@ == old(self)@.insert(id.0, sender),
    {
        self.active.insert(id.0, sender);
    }

    /// Enters a new worker into the routing table unless its id is still
    /// routable; then the table stays as it is and the channel comes back.
    pub fn try_register(&mut self, id: SessionId, sender: C) -> (refused: Option<C>)
        ensures
            old(self).routes(id) ==> final(self)@ == old(self)@ && refused == Some(sender),
            !old(self).routes(id) ==> final(self)@ == apply(
                old(self)@,
                Change::Register(id, sender),
            ) && refused is None,
    {
        if self.active.contains_key(&id.0) {
            Some(sender)
        } else {
            self.active.insert(id.0, sender);
            None
        }
    }

    /// Enters all workers that wait to register, in their order. This is
    /// done before each request is looked at, so that no chunk is ever
    /// looked up before the registrations that were waiting with it. Those
    /// whose id is still routable are handed back.
    pub fn admit_all(&mut self, waiting: Vec<(SessionId, C)>) -> (refused: Vec<(SessionId, C)>)
        ensures
            final(self)@ == admitted(old(self)@, waiting@),
            refused@ == passed_over(old(self)@, waiting@),
    {
        let ghost all = waiting@;
        let mut refused: Vec<(SessionId, C)> = Vec::new();
        for entry in it: waiting.into_iter()
            invariant
                it.seq() == all,
                self@ == admitted(old(self)@, all.take(it.index() as int)),
                refused@ == passed_over(old(self)@, all.take(it.index() as int)),
        {
            proof {
                let done = it.index() as int;
                assert(all.take(done + 1).drop_last() =~= all.take(done));
                assert(all.take(done + 1).last() == entry);
            }
            let (id, sender) = entry;
            match self.try_register(id, sender) {
                Some(back) => refused.push((id, back)),
                None => {},
            }
        }
        proof {
            assert(all.take(all.len() as int) =~= all);
        }
        refused
    }

    /// One turn of the dispatcher: first all workers that wait to register
    /// are entered, then the request is decided on the table that they have
    /// made. So a chunk for an id whose worker was waiting is forwarded to
    /// it, never answered `Gone`.
    pub fn serve<'a>(&'a mut self, waiting: Vec<(SessionId, C)>, msg: DSReq) -> (turn: (
        Vec<(SessionId, C)>,
        Dispatch<'a, C>,
    ))
        ensures
            final(self)@ == admitted(old(self)@, waiting@),
            turn.0@ == passed_over(old(self)@, waiting@),
            turn.1 == dispatch::<C>(admitted(old(self)@, waiting@), msg),
    {
        let refused = self.admit_all(waiting);
        let decision = self.handle_msg(msg);
        (refused, decision)
    }

    /// Decides what becomes of a request: a new session gets a worker, a
    /// chunk goes to the worker of its session, and a chunk for a session
    /// without a worker is answered `Gone`. The table is not changed.
    pub fn handle_msg<'a>(&'a self, msg: DSReq) -> (decision: Dispatch<'a, C>)
        ensures
            decision == dispatch::<C>(self@, msg),
    {
        match msg {
            DSReq::Init(req) => Dispatch::Spawn(req),
            DSReq::Chunk(req) => {
                match self.active.get(&req.id.0) {
                    Some(sender) => Dispatch::Forward(sender, req),
                    None => Dispatch::Gone(req),
                }
            },
        }
    }

    /// Records that a forward to the worker of `id` failed: its channel is
    /// closed, so the worker has ended. The stale entry is removed and the
    /// request is answered `Gone`.
    pub fn forward_failed(&mut self, id: SessionId) -> (answer: AppendResult)
        ensures
            final(self)@ == apply(old(self)@, Change::<C>::Evict(id)),
            final(self)@ == old(self)@.remove(id.0),
            answer == AppendResult::Gone,
    {
        self.active.remove(&id.0);
        AppendResult::Gone
    }

    /// Opens a session for `sender` under an id drawn at random, a UUID of
    /// version 4. Should the id be routable already, nothing is changed and
    /// the channel comes back: so the call fails only if the table holds
    /// such an id, and never on an empty table.
    pub fn init_store(&mut self, sender: C) -> (opened: Result<SessionId, C>)
        ensures
            match opened {
                Ok(id) => {
                    &&& id.version() == 4
                    &&& id.is_rfc4122()
                    &&& !old(self).routes(id)
                    &&& final(self)@ == old(self)@.insert(id.0, sender)
                },
                Err(back) => {
                    &&& back == sender
                    &&& final(self)@ == old(self)@
                    &&& exists|drawn: SessionId|
                        drawn.version() == 4 && drawn.is_rfc4122() && #[trigger] old(self).routes(
                            drawn,
                        )
                },
            },
    {
        let id = SessionId::random();
        match self.try_register(id, sender) {
            None => Ok(id),
            Some(back) => {
                assert(old(self).routes(id));
                Err(back)
            },
        }
    }

    /// The channel to hand a segment for session `id` to, or `None` if the
    /// session is gone.
    pub fn append_segment(&self, id: SessionId) -> (sender: Option<&C>)
        ensures
            match sender {
                Some(found) => self.routes(id) && *found == self@[id.0],
                None => !self.routes(id),
            },
    {
        self.active.get(&id.0)
    }

    /// Ends session `id`: its entry leaves the table.
    pub fn complete_store(&mut self, id: SessionId)
        ensures
            final(self)@ == apply(old(self)@, Change::<C>::Evict(id)),
            final(self)@ == old(self)@.remove(id.0),
    {
        self.active.remove(&id.0);
    }

    /// The number of routable sessions.
    pub fn len(&self) -> (n: usize)
        ensures
            n == self@.len(),
    {
        self.active.len()
    }
}

/// What came back to a caller that sent a request and waited for the answer.
pub enum Answer<T> {
    /// The worker answered with a value.
    Value(T),
    /// The worker answered that the operation failed.
    Failure,
    /// The request was dropped without an answer: nobody serves the session.
    Dropped,
    /// The request could not be sent: the dispatcher is gone.
    Unsent,
}

/// Why a call on the handle failed.
#[derive(Clone, Copy, Debug, PartialEq, Eq, Structural)]
pub enum Fault {
    /// The metadata is larger than the limit. Nothing was created.
    MetadataTooLarge,
    /// The session could not be created, or it failed and was cleaned away.
    SessionFailed,
    /// The dispatcher or the worker could not be reached.
    Unavailable,
}

/// What opening a session comes to, given the answer that came back.
pub open spec fn init_outcome(answer: Answer<SessionId>) -> Result<SessionId, Fault> {
    match answer {
        Answer::Value(id) => Ok(id),
        Answer::Failure => Err(Fault::SessionFailed),
        Answer::Dropped | Answer::Unsent => Err(Fault::Unavailable),
    }
}

/// What an append comes to, given the answer that came back. A dropped
/// request means that no worker serves the session: that is `Gone`, not a
/// fault.
pub open spec fn append_outcome(answer: Answer<AppendResult>) -> Result<AppendResult, Fault> {
    match answer {
        Answer::Value(result) => Ok(result),
        Answer::Failure => Err(Fault::SessionFailed),
        Answer::Dropped => Ok(AppendResult::Gone),
        Answer::Unsent => Err(Fault::Unavailable),
    }
}

/// The caller's side of the store. It builds the requests that go to the
/// dispatcher and reads the answers that come back.
#[derive(Clone, Copy, Debug)]
pub struct DataStoreHandle {}

impl DataStoreHandle {
    pub fn new() -> Self {
        DataStoreHandle {  }
    }

    /// Opens a session: the request to send, or a refusal if the metadata is
    /// over the limit. A refusal has no effect anywhere.
    pub fn init_store(&self, meta: Bytes) -> (req: Result<DSReq, Fault>)
        ensures
            metadata_fits(content(meta)) ==> req == Ok::<DSReq, Fault>(
                DSReq::Init(InitReq { meta }),
            ),
            !metadata_fits(content(meta)) ==> req == Err::<DSReq, Fault>(Fault::MetadataTooLarge),
    {
        if check_metadata(&meta) {
            Ok(DSReq::Init(InitReq { meta }))
        } else {
            Err(Fault::MetadataTooLarge)
        }
    }

    /// The request that appends `chunk` to session `id`. An empty chunk
    /// completes the session.
    pub fn append_chunk(&self, id: SessionId, chunk: Bytes) -> (req: DSReq)
        ensures
            req == DSReq::Chunk(ChunkReq { id, data: chunk }),
    {
        DSReq::Chunk(ChunkReq { id, data: chunk })
    }

    /// The request that completes session `id`: an append of no bytes.
    pub fn complete_store(&self, id: SessionId) -> (req: DSReq)
        ensures
            req matches DSReq::Chunk(chunk) && chunk.id == id && content(chunk.data).len() == 0,
    {
        self.append_chunk(id, Bytes::new())
    }

    /// Reads the answer to an `init_store` request.
    pub fn init_answered(&self, answer: Answer<SessionId>) -> (outcome: Result<SessionId, Fault>)
        ensures
            outcome == init_outcome(answer),
    {
        match answer {
            Answer::Value(id) => Ok(id),
            Answer::Failure => Err(Fault::SessionFailed),
            Answer::Dropped => Err(Fault::Unavailable),
            Answer::Unsent => Err(Fault::Unavailable),
        }
    }

    /// Reads the answer to an `append_chunk` or `complete_store` request.
    pub fn append_answered(&self, answer: Answer<AppendResult>) -> (outcome: Result<
        AppendResult,
        Fault,
    >)
        ensures
            outcome == append_outcome(answer),
    {
        match answer {
            Answer::Value(result) => Ok(result),
            Answer::Failure => Err(Fault::SessionFailed),
            Answer::Dropped => Ok(AppendResult::Gone),
            Answer::Unsent => Err(Fault::Unavailable),
        }
    }
}

} // verus!
