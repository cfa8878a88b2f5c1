//! The session worker: one per upload, from the first row insert to the last
//! reply.
//!
//! A worker never touches a file or the database itself. It is told what
//! happened (an [`Event`]) and answers with what to do next (a
//! [`Directive`]): a reply to whoever is waiting, and one operation whose
//! outcome is the next event.

use crate::id::SessionId;
use crate::payload::content;
use crate::store::{AppendResult, InitReq};
use bytes::Bytes;
use vstd::prelude::*;

verus! {

/// Seconds a worker waits for the next chunk before it gives the session up.
pub const IDLE_TIMEOUT_SECS: u64 = 60;

/// Why a session was given up.
#[derive(Clone, Copy, Debug, PartialEq, Eq, Structural)]
pub enum Cause {
    /// The session could not be set up.
    Bootstrap,
    /// A write, a flush or the completion mark failed.
    Io,
    /// No chunk came in time, or the inbound channel closed, before the
    /// completing empty chunk.
    Incomplete,
}

/// Where a worker stands. Each state but the last two has exactly one
/// operation in flight.
#[derive(Clone, Copy, Debug, PartialEq, Eq, Structural)]
pub enum Worker {
    /// A transaction is open and the row insert is in flight.
    Inserting,
    /// The row is inserted but not committed; the file is being created.
    Creating { id: SessionId },
    /// The file exists; the transaction is being committed.
    Committing { id: SessionId },
    /// The session is durable; the dispatcher is being told of it.
    Registering { id: SessionId },
    /// Waiting for the next chunk.
    Waiting { id: SessionId },
    /// A chunk is being appended to the file.
    Writing { id: SessionId },
    /// The completing chunk has come; the file is being flushed.
    Flushing { id: SessionId },
    /// The file is flushed; the row is being marked completed.
    Sealing { id: SessionId },
    /// Setup failed before the commit; the transaction is being rolled back.
    RollingBack,
    /// The session is given up; its file is being removed. `erase` tells
    /// whether a committed row is still to be deleted.
    Discarding { id: SessionId, erase: bool, cause: Cause },
    /// The session is given up; its row is being deleted.
    Erasing { id: SessionId, cause: Cause },
    /// The upload is complete. Final.
    Finished { id: SessionId },
    /// The session was given up and cleaned away. Final.
    Abandoned { cause: Cause },
}

/// The life of a session, as the rest of the system sees it.
#[derive(Clone, Copy, Debug, PartialEq, Eq, Structural)]
pub enum SessionState {
    /// Being set up: not yet known to the dispatcher.
    Opening,
    /// Open: chunks are accepted.
    Active,
    /// Ended with the completing chunk: the file is kept.
    Completed,
    /// Given up: file and row are removed, or being removed.
    Aborted,
}

/// What the outside world reports to a worker.
#[derive(Clone, Debug, PartialEq, Eq)]
pub enum Event {
    /// The row insert succeeded and the database issued this identifier.
    RowInserted { id: SessionId },
    /// The operation in flight succeeded.
    Done,
    /// The operation in flight failed.
    Failed,
    /// A chunk arrived while waiting.
    Chunk { data: Bytes },
    /// The idle timeout passed while waiting.
    TimedOut,
    /// The inbound channel closed while waiting.
    Closed,
}

/// One unit of outside work. Its outcome comes back as the next [`Event`].
#[derive(Clone, Debug, PartialEq, Eq)]
pub enum Operation {
    /// Open a transaction and insert a row with this metadata.
    InsertRow { meta: Bytes },
    /// Create the destination file of this session.
    CreateFile { id: SessionId },
    /// Commit the open transaction.
    Commit,
    /// Roll the open transaction back, if there is one.
    Rollback,
    /// Send this session's inbound channel to the dispatcher.
    Register { id: SessionId },
    /// Wait for the next chunk, at most this many seconds.
    AwaitChunk { timeout_secs: u64 },
    /// Append these bytes to the end of the file.
    Write { data: Bytes },
    /// Flush the file to durable storage.
    Flush,
    /// Set the completion time on this session's row.
    MarkCompleted { id: SessionId },
    /// Close the file and delete it from disk.
    RemoveFile { id: SessionId },
    /// Delete this session's row.
    DeleteRow { id: SessionId },
    /// Nothing more: the worker has ended.
    Stop,
}

/// What a worker tells the caller that is waiting on it.
#[derive(Clone, Copy, Debug, PartialEq, Eq, Structural)]
pub enum Reply {
    /// Nobody is told anything.
    Nothing,
    /// To the caller that opened the session: it is open under this id.
    Started(SessionId),
    /// To the caller that opened the session: it could not be opened.
    InitFailed,
    /// To the caller of the last chunk: what the append did.
    Appended(AppendResult),
    /// To the caller of the last chunk: the session failed and is gone.
    AppendFailed,
}

/// A worker's answer to an event: first send `reply`, then perform `next`.
#[derive(Clone, Debug, PartialEq, Eq)]
pub struct Directive {
    pub reply: Reply,
    pub next: Operation,
}

/// A directive that tells nobody anything.
pub open spec fn quietly(next: Operation) -> Directive {
    Directive { reply: Reply::Nothing, next }
}

/// The reply owed when a session given up for `cause` has been cleaned away.
pub open spec fn parting_reply(cause: Cause) -> Reply {
    match cause {
        Cause::Bootstrap => Reply::InitFailed,
        Cause::Io => Reply::AppendFailed,
        Cause::Incomplete => Reply::Nothing,
    }
}

/// The end of a session that was given up: the parting reply, then nothing.
pub open spec fn farewell(cause: Cause) -> (Worker, Directive) {
    (Worker::Abandoned { cause }, Directive { reply: parting_reply(cause), next: Operation::Stop })
}

/// The first step of giving up a session whose file may exist.
pub open spec fn discard(id: SessionId, erase: bool, cause: Cause) -> (Worker, Directive) {
    (Worker::Discarding { id, erase, cause }, quietly(Operation::RemoveFile { id }))
}

/// Waiting for the next chunk of session `id`, after sending `reply`.
pub open spec fn wait(id: SessionId, reply: Reply) -> (Worker, Directive) {
    (
        Worker::Waiting { id },
        Directive { reply, next: Operation::AwaitChunk { timeout_secs: IDLE_TIMEOUT_SECS } },
    )
}

/// The worker's transition: the state and the directive that follow when a
/// worker in state `w` is told of `e`.
///
/// Every state expects one kind of good news. Anything else counts as a
/// fault of the operation in flight, and the worker turns to undoing what
/// the session has left behind: nothing before the row insert succeeded, the
/// open transaction before the commit, the file after a failed commit, the
/// file and the row after that.
pub open spec fn next(w: Worker, e: Event) -> (Worker, Directive) {
    match w {
        Worker::Inserting => match e {
            Event::RowInserted { id } => (
                Worker::Creating { id },
                quietly(Operation::CreateFile { id }),
            ),
            _ => (Worker::RollingBack, quietly(Operation::Rollback)),
        },
        Worker::Creating { id } => match e {
            Event::Done => (Worker::Committing { id }, quietly(Operation::Commit)),
            _ => (Worker::RollingBack, quietly(Operation::Rollback)),
        },
        Worker::Committing { id } => match e {
            Event::Done => (Worker::Registering { id }, quietly(Operation::Register { id })),
            _ => discard(id, false, Cause::Bootstrap),
        },
        Worker::Registering { id } => match e {
            Event::Done => wait(id, Reply::Started(id)),
            _ => discard(id, true, Cause::Bootstrap),
        },
        Worker::Waiting { id } => match e {
            Event::Chunk { data } => if content(data).len() == 0 {
                (Worker::Flushing { id }, quietly(Operation::Flush))
            } else {
                (Worker::Writing { id }, quietly(Operation::Write { data }))
            },
            _ => discard(id, true, Cause::Incomplete),
        },
        Worker::Writing { id } => match e {
            Event::Done => wait(id, Reply::Appended(AppendResult::Continue)),
            _ => discard(id, true, Cause::Io),
        },
        Worker::Flushing { id } => match e {
            Event::Done => (Worker::Sealing { id }, quietly(Operation::MarkCompleted { id })),
            _ => discard(id, true, Cause::Io),
        },
        Worker::Sealing { id } => match e {
            Event::Done => (
                Worker::Finished { id },
                Directive { reply: Reply::Appended(AppendResult::Done), next: Operation::Stop },
            ),
            _ => discard(id, true, Cause::Io),
        },
        Worker::RollingBack => farewell(Cause::Bootstrap),
        Worker::Discarding { id, erase, cause } => if erase {
            (Worker::Erasing { id, cause }, quietly(Operation::DeleteRow { id }))
        } else {
            farewell(cause)
        },
        Worker::Erasing { id, cause } => farewell(cause),
        Worker::Finished { id } => (w, quietly(Operation::Stop)),
        Worker::Abandoned { cause } => (w, quietly(Operation::Stop)),
    }
}

/// The state and the first directive of a worker spawned for `ir`.
pub open spec fn opening(ir: InitReq) -> (Worker, Directive) {
    (Worker::Inserting, quietly(Operation::InsertRow { meta: ir.meta }))
}

/// Spawns the worker of a new session: it begins by inserting the row that
/// holds the metadata.
pub fn start(ir: InitReq) -> (begun: (Worker, Directive))
    ensures
        begun == opening(ir),
{
    (Worker::Inserting, Directive { reply: Reply::Nothing, next: Operation::InsertRow { meta: ir.meta } })
}

fn quiet(next: Operation) -> (d: Directive)
    ensures
        d == quietly(next),
{
    Directive { reply: Reply::Nothing, next }
}

fn give_up(id: SessionId, erase: bool, cause: Cause) -> (r: (Worker, Directive))
    ensures
        r == discard(id, erase, cause),
{
    (Worker::Discarding { id, erase, cause }, quiet(Operation::RemoveFile { id }))
}

fn part(cause: Cause) -> (r: (Worker, Directive))
    ensures
        r == farewell(cause),
{
    let reply = match cause {
        Cause::Bootstrap => Reply::InitFailed,
        Cause::Io => Reply::AppendFailed,
        Cause::Incomplete => Reply::Nothing,
    };
    (Worker::Abandoned { cause }, Directive { reply, next: Operation::Stop })
}

fn await_chunk(id: SessionId, reply: Reply) -> (r: (Worker, Directive))
    ensures
        r == wait(id, reply),
{
    (
        Worker::Waiting { id },
        Directive { reply, next: Operation::AwaitChunk { timeout_secs: IDLE_TIMEOUT_SECS } },
    )
}

impl Worker {
    /// Whether the worker has ended: nothing it is told changes it any more.
    pub open spec fn ended(self) -> bool {
        self is Finished || self is Abandoned
    }

    /// The id of the session that the worker serves, while it holds one:
    /// from the row insert until the cleanup is over.
    pub open spec fn session(self) -> Option<SessionId> {
        match self {
            Worker::Inserting | Worker::RollingBack | Worker::Abandoned { .. } => None,
            Worker::Creating { id }
            | Worker::Committing { id }
            | Worker::Registering { id }
            | Worker::Waiting { id }
            | Worker::Writing { id }
            | Worker::Flushing { id }
            | Worker::Sealing { id }
            | Worker::Discarding { id, .. }
            | Worker::Erasing { id, .. }
            | Worker::Finished { id } => Some(id),
        }
    }

    /// The state of the session that the worker serves.
    pub open spec fn state(self) -> SessionState {
        match self {
            Worker::Inserting
            | Worker::Creating { .. }
            | Worker::Committing { .. }
            | Worker::Registering { .. } => SessionState::Opening,
            Worker::Waiting { .. }
            | Worker::Writing { .. }
            | Worker::Flushing { .. }
            | Worker::Sealing { .. } => SessionState::Active,
            Worker::Finished { .. } => SessionState::Completed,
            Worker::RollingBack
            | Worker::Discarding { .. }
            | Worker::Erasing { .. }
            | Worker::Abandoned { .. } => SessionState::Aborted,
        }
    }

    /// Tells the state of the session that the worker serves.
    pub fn session_state(&self) -> (state: SessionState)
        ensures
            state == self.state(),
    {
        match self {
            Worker::Inserting
            | Worker::Creating { .. }
            | Worker::Committing { .. }
            | Worker::Registering { .. } => SessionState::Opening,
            Worker::Waiting { .. }
            | Worker::Writing { .. }
            | Worker::Flushing { .. }
            | Worker::Sealing { .. } => SessionState::Active,
            Worker::Finished { .. } => SessionState::Completed,
            Worker::RollingBack
            | Worker::Discarding { .. }
            | Worker::Erasing { .. }
            | Worker::Abandoned { .. } => SessionState::Aborted,
        }
    }

    /// Takes the worker one step: from its state and what it is told to its
    /// next state and what is to be done.
    pub fn step(self, event: Event) -> (r: (Worker, Directive))
        ensures
            r == next(self, event),
    {
        match self {
            Worker::Inserting => match event {
                Event::RowInserted { id } => (
                    Worker::Creating { id },
                    quiet(Operation::CreateFile { id }),
                ),
                _ => (Worker::RollingBack, quiet(Operation::Rollback)),
            },
            Worker::Creating { id } => match event {
                Event::Done => (Worker::Committing { id }, quiet(Operation::Commit)),
                _ => (Worker::RollingBack, quiet(Operation::Rollback)),
            },
            Worker::Committing { id } => match event {
                Event::Done => (Worker::Registering { id }, quiet(Operation::Register { id })),
                _ => give_up(id, false, Cause::Bootstrap),
            },
            Worker::Registering { id } => match event {
                Event::Done => await_chunk(id, Reply::Started(id)),
                _ => give_up(id, true, Cause::Bootstrap),
            },
            Worker::Waiting { id } => match event {
                Event::Chunk { data } => {
                    if data.is_empty() {
                        (Worker::Flushing { id }, quiet(Operation::Flush))
                    } else {
                        (Worker::Writing { id }, quiet(Operation::Write { data }))
                    }
                },
                _ => give_up(id, true, Cause::Incomplete),
            },
            Worker::Writing { id } => match event {
                Event::Done => await_chunk(id, Reply::Appended(AppendResult::Continue)),
                _ => give_up(id, true, Cause::Io),
            },
            Worker::Flushing { id } => match event {
                Event::Done => (Worker::Sealing { id }, quiet(Operation::MarkCompleted { id })),
                _ => give_up(id, true, Cause::Io),
            },
            Worker::Sealing { id } => match event {
                Event::Done => (
                    Worker::Finished { id },
                    Directive { reply: Reply::Appended(AppendResult::Done), next: Operation::Stop },
                ),
                _ => give_up(id, true, Cause::Io),
            },
            Worker::RollingBack => part(Cause::Bootstrap),
            Worker::Discarding { id, erase, cause } => {
                if erase {
                    (Worker::Erasing { id, cause }, quiet(Operation::DeleteRow { id }))
                } else {
                    part(cause)
                }
            },
            Worker::Erasing { id, cause } => part(cause),
            Worker::Finished { id } => (self, quiet(Operation::Stop)),
            Worker::Abandoned { cause } => (self, quiet(Operation::Stop)),
        }
    }

    /// Tells whether the worker has ended.
    pub fn is_ended(&self) -> (ended: bool)
        ensures
            ended == self.ended(),
    {
        match self {
            Worker::Finished { .. } | Worker::Abandoned { .. } => true,
            _ => false,
        }
    }
}

} // verus!
