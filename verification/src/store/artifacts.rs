//! What a session leaves on disk and in the database, and what the worker's
//! directives do to it.
//!
//! Nothing here runs. The module follows a worker and the world it drives
//! through any sequence of events, and proves what holds at the end.

use crate::payload::content;
use crate::id::SessionId;
use crate::store::worker::{
    next, opening, Directive, Event, Operation, Reply, SessionState, Worker,
};
use crate::store::{AppendResult, InitReq};
use vstd::prelude::*;

verus! {

/// The session's row in the record store. A row holds the metadata that it
/// was inserted with.
pub enum Row {
    /// No row.
    Absent,
    /// Inserted in a transaction that is still open: visible to nobody.
    Pending(Seq<u8>),
    /// Committed, not marked completed.
    Committed(Seq<u8>),
    /// Committed and marked completed.
    Completed(Seq<u8>),
}

impl Row {
    /// The metadata that the row holds, if there is a row.
    pub open spec fn metadata(self) -> Option<Seq<u8>> {
        match self {
            Row::Absent => None,
            Row::Pending(meta) | Row::Committed(meta) | Row::Completed(meta) => Some(meta),
        }
    }
}

/// The session's destination file.
pub enum Stored {
    /// No file.
    Missing,
    /// The file holds exactly these bytes.
    Intact(Seq<u8>),
    /// A write or a flush failed: the file holds nobody knows what.
    Torn,
}

/// What exists of one session outside the worker.
pub struct Artifacts {
    pub row: Row,
    pub file: Stored,
}

/// The bytes that an event carries into the session.
pub open spec fn payload(e: Event) -> Seq<u8> {
    match e {
        Event::Chunk { data } => content(data),
        _ => Seq::empty(),
    }
}

/// Whether `e` can be the outcome of `op`.
pub open spec fn possible(op: Operation, e: Event) -> bool {
    match op {
        Operation::InsertRow { .. } => e is RowInserted || e is Failed,
        Operation::AwaitChunk { .. } => e is Chunk || e is TimedOut || e is Closed,
        Operation::Stop => false,
        _ => e is Done || e is Failed,
    }
}

/// The artifacts after `op` was performed on `a` with outcome `e`.
///
/// A transaction that is rolled back, or whose commit fails, leaves no row.
/// A failed write or flush leaves the file torn. A removal that fails
/// removes nothing.
pub open spec fn perform(a: Artifacts, op: Operation, e: Event) -> Artifacts {
    match op {
        Operation::InsertRow { meta } => if e is RowInserted {
            Artifacts { row: Row::Pending(content(meta)), ..a }
        } else {
            a
        },
        Operation::CreateFile { .. } => if e is Done {
            Artifacts { file: Stored::Intact(Seq::empty()), ..a }
        } else {
            a
        },
        Operation::Commit => match a.row {
            Row::Pending(meta) => if e is Done {
                Artifacts { row: Row::Committed(meta), ..a }
            } else {
                Artifacts { row: Row::Absent, ..a }
            },
            _ => a,
        },
        Operation::Rollback => if a.row is Pending {
            Artifacts { row: Row::Absent, ..a }
        } else {
            a
        },
        Operation::Write { data } => match a.file {
            Stored::Intact(held) => if e is Done {
                Artifacts { file: Stored::Intact(held + content(data)), ..a }
            } else {
                Artifacts { file: Stored::Torn, ..a }
            },
            _ => a,
        },
        Operation::Flush => if e is Done || a.file is Missing {
            a
        } else {
            Artifacts { file: Stored::Torn, ..a }
        },
        Operation::MarkCompleted { .. } => match a.row {
            Row::Committed(meta) => if e is Done {
                Artifacts { row: Row::Completed(meta), ..a }
            } else {
                a
            },
            _ => a,
        },
        Operation::RemoveFile { .. } => if e is Done {
            Artifacts { file: Stored::Missing, ..a }
        } else {
            a
        },
        Operation::DeleteRow { .. } => if e is Done {
            Artifacts { row: Row::Absent, ..a }
        } else {
            a
        },
        Operation::Register { .. } | Operation::AwaitChunk { .. } | Operation::Stop => a,
    }
}

/// Whether `e`, as the outcome of `op`, is a cleanup that did not succeed.
pub open spec fn botched(op: Operation, e: Event) -> bool {
    (op is RemoveFile || op is DeleteRow) && !(e is Done)
}

/// A worker together with the operation it has in flight and the artifacts
/// of its session.
pub struct Run {
    pub worker: Worker,
    pub pending: Operation,
    pub reply: Reply,
    pub artifacts: Artifacts,
}

/// The run of a worker that was just spawned: nothing exists yet.
pub open spec fn fresh(ir: InitReq) -> Run {
    Run {
        worker: opening(ir).0,
        pending: opening(ir).1.next,
        reply: opening(ir).1.reply,
        artifacts: Artifacts { row: Row::Absent, file: Stored::Missing },
    }
}

/// One turn: the pending operation is performed with outcome `e`, and the
/// worker is told.
pub open spec fn turn(r: Run, e: Event) -> Run {
    Run {
        worker: next(r.worker, e).0,
        pending: next(r.worker, e).1.next,
        reply: next(r.worker, e).1.reply,
        artifacts: perform(r.artifacts, r.pending, e),
    }
}

/// The run after the worker spawned for `ir` has been told of `events`, one
/// after the other.
pub open spec fn run(ir: InitReq, events: Seq<Event>) -> Run
    decreases events.len(),
{
    if events.len() == 0 {
        fresh(ir)
    } else {
        turn(run(ir, events.drop_last()), events.last())
    }
}

/// Whether each of `events` can be the outcome of the operation that was
/// pending when it came.
pub open spec fn plausible(ir: InitReq, events: Seq<Event>) -> bool
    decreases events.len(),
{
    events.len() == 0 || {
        &&& plausible(ir, events.drop_last())
        &&& possible(run(ir, events.drop_last()).pending, events.last())
    }
}

/// Whether every cleanup in the run succeeded.
pub open spec fn tidy(ir: InitReq, events: Seq<Event>) -> bool
    decreases events.len(),
{
    events.len() == 0 || {
        &&& tidy(ir, events.drop_last())
        &&& !botched(run(ir, events.drop_last()).pending, events.last())
    }
}

/// All bytes that the chunks among `events` carry, in the order of arrival.
pub open spec fn submitted(events: Seq<Event>) -> Seq<u8>
    decreases events.len(),
{
    if events.len() == 0 {
        Seq::empty()
    } else {
        submitted(events.drop_last()) + payload(events.last())
    }
}

/// What ties a run to the metadata that the session was opened with and to
/// the bytes submitted so far; `tidy` tells whether all cleanups have
/// succeeded.
pub open spec fn coherent(r: Run, meta: Seq<u8>, sent: Seq<u8>, tidy: bool) -> bool {
    let a = r.artifacts;
    &&& a.row.metadata() is Some ==> a.row.metadata() == Some(meta)
    &&& match r.worker {
        Worker::Inserting => {
            &&& r.pending matches Operation::InsertRow { meta: carried }
            &&& content(carried) == meta
            &&& a.row is Absent
            &&& a.file is Missing
            &&& sent.len() == 0
        },
        Worker::Creating { id } => {
            &&& r.pending == Operation::CreateFile { id }
            &&& a.row is Pending
            &&& a.file is Missing
            &&& sent.len() == 0
        },
        Worker::Committing { id } => {
            &&& r.pending == Operation::Commit
            &&& a.row is Pending
            &&& a.file == Stored::Intact(Seq::empty())
            &&& sent.len() == 0
        },
        Worker::Registering { id } => {
            &&& r.pending == Operation::Register { id }
            &&& a.row is Committed
            &&& a.file == Stored::Intact(Seq::empty())
            &&& sent.len() == 0
        },
        Worker::Waiting { id } => {
            &&& r.pending is AwaitChunk
            &&& a.row is Committed
            &&& a.file == Stored::Intact(sent)
        },
        Worker::Writing { id } => {
            &&& r.pending matches Operation::Write { data }
            &&& a.row is Committed
            &&& a.file matches Stored::Intact(held)
            &&& held + content(data) == sent
        },
        Worker::Flushing { id } => {
            &&& r.pending == Operation::Flush
            &&& a.row is Committed
            &&& a.file == Stored::Intact(sent)
        },
        Worker::Sealing { id } => {
            &&& r.pending == Operation::MarkCompleted { id }
            &&& a.row is Committed
            &&& a.file == Stored::Intact(sent)
        },
        Worker::RollingBack => {
            &&& r.pending == Operation::Rollback
            &&& (a.row is Absent || a.row is Pending)
            &&& a.file is Missing
        },
        Worker::Discarding { id, erase, cause } => {
            &&& r.pending == Operation::RemoveFile { id }
            &&& !erase ==> a.row is Absent
            &&& !(a.row is Completed)
        },
        Worker::Erasing { id, cause } => {
            &&& r.pending == Operation::DeleteRow { id }
            &&& tidy ==> a.file is Missing
            &&& !(a.row is Completed)
        },
        Worker::Finished { id } => {
            &&& r.pending == Operation::Stop
            &&& a.row is Completed
            &&& a.file == Stored::Intact(sent)
        },
        Worker::Abandoned { cause } => {
            &&& r.pending == Operation::Stop
            &&& tidy ==> a.row is Absent && a.file is Missing
            &&& !(a.row is Completed)
        },
    }
}

/// One plausible turn keeps a run coherent.
proof fn lemma_turn_coherent(r: Run, meta: Seq<u8>, sent: Seq<u8>, tidy: bool, e: Event)
    requires
        coherent(r, meta, sent, tidy),
        possible(r.pending, e),
    ensures
        coherent(turn(r, e), meta, sent + payload(e), tidy && !botched(r.pending, e)),
{
    assert(sent + Seq::<u8>::empty() =~= sent);
    assert(Seq::<u8>::empty() + payload(e) =~= payload(e));
    match r.worker {
        Worker::Waiting { id } => {
            match e {
                Event::Chunk { data } => {
                    if content(data).len() == 0 {
                        assert(sent + content(data) =~= sent);
                    }
                },
                _ => {},
            }
        },
        _ => {},
    }
}

/// Every plausible run is coherent with the bytes submitted in it.
pub proof fn lemma_run_coherent(ir: InitReq, events: Seq<Event>)
    requires
        plausible(ir, events),
    ensures
        coherent(run(ir, events), content(ir.meta), submitted(events), tidy(ir, events)),
    decreases events.len(),
{
    if events.len() > 0 {
        lemma_run_coherent(ir, events.drop_last());
        lemma_turn_coherent(
            run(ir, events.drop_last()),
            content(ir.meta),
            submitted(events.drop_last()),
            tidy(ir, events.drop_last()),
            events.last(),
        );
    }
}

/// Chunks are applied in the order of their arrival: whenever the worker
/// waits for the next chunk, the file holds exactly the bytes of the chunks
/// that have come so far, first to last.
pub proof fn law_chunks_in_order(ir: InitReq, events: Seq<Event>)
    requires
        plausible(ir, events),
        run(ir, events).worker is Waiting,
    ensures
        run(ir, events).artifacts.file == Stored::Intact(submitted(events)),
        run(ir, events).artifacts.row is Committed,
{
    lemma_run_coherent(ir, events);
}

/// A session that ends with its completing chunk leaves the file with
/// exactly the submitted bytes, in order, and the row marked completed.
pub proof fn law_success_is_whole(ir: InitReq, events: Seq<Event>)
    requires
        plausible(ir, events),
        run(ir, events).worker is Finished,
    ensures
        run(ir, events).artifacts.file == Stored::Intact(submitted(events)),
        run(ir, events).artifacts.row is Completed,
{
    lemma_run_coherent(ir, events);
}

/// A session that is given up, for whatever cause, leaves neither row nor
/// file, provided that the removals the worker asked for succeeded.
pub proof fn law_failure_leaves_nothing(ir: InitReq, events: Seq<Event>)
    requires
        plausible(ir, events),
        tidy(ir, events),
        run(ir, events).worker is Abandoned,
    ensures
        run(ir, events).artifacts.row is Absent,
        run(ir, events).artifacts.file is Missing,
{
    lemma_run_coherent(ir, events);
}

/// The id that the database issued in the run: the one that came with the
/// row insert, which is the first thing a worker is told.
pub open spec fn issued(events: Seq<Event>) -> Option<SessionId> {
    if events.len() > 0 {
        match events[0] {
            Event::RowInserted { id } => Some(id),
            _ => None,
        }
    } else {
        None
    }
}

/// A worker serves one session all its life: the id it holds is the id
/// that the database issued for its row, and never another.
pub proof fn law_one_id_for_life(ir: InitReq, events: Seq<Event>)
    requires
        run(ir, events).worker.session() is Some,
    ensures
        run(ir, events).worker.session() == issued(events),
    decreases events.len(),
{
    if events.len() > 1 {
        assert(events.drop_last()[0] == events[0]);
        if run(ir, events.drop_last()).worker.session() is Some {
            law_one_id_for_life(ir, events.drop_last());
        } else {
            lemma_nameless_after_first(ir, events.drop_last());
        }
    } else if events.len() == 1 {
        assert(events.drop_last() =~= Seq::<Event>::empty());
    }
}

/// Once a worker has been told anything, it holds no id only if it is
/// giving up without one or has ended; from there it never comes to hold
/// one.
proof fn lemma_nameless_after_first(ir: InitReq, events: Seq<Event>)
    requires
        events.len() > 0,
        run(ir, events).worker.session() is None,
    ensures
        run(ir, events).worker is RollingBack || run(ir, events).worker is Abandoned,
    decreases events.len(),
{
    if events.len() > 1 {
        if run(ir, events.drop_last()).worker.session() is None {
            lemma_nameless_after_first(ir, events.drop_last());
        }
    } else {
        assert(events.drop_last() =~= Seq::<Event>::empty());
    }
}

/// The id that a caller is told for its new session is the id that the
/// database issued for the session's row. So two callers are told one id
/// only if the database issued it twice.
pub proof fn law_disclosed_id_is_issued(ir: InitReq, events: Seq<Event>, id: SessionId)
    requires
        run(ir, events).reply == Reply::Started(id),
    ensures
        issued(events) == Some(id),
{
    assert(run(ir, events).worker == Worker::Waiting { id });
    law_one_id_for_life(ir, events);
}

/// A caller that is told `Done` can rely on it: at that moment the file
/// holds exactly what was submitted and the row is marked completed.
pub proof fn law_done_is_durable(ir: InitReq, events: Seq<Event>)
    requires
        plausible(ir, events),
        run(ir, events).reply == Reply::Appended(AppendResult::Done),
    ensures
        run(ir, events).worker is Finished,
        run(ir, events).artifacts.file == Stored::Intact(submitted(events)),
        run(ir, events).artifacts.row is Completed,
{
    lemma_run_coherent(ir, events);
}

/// A caller that is told the id of its new session can rely on it: at that
/// moment the row is committed, the file exists and is empty, and the
/// worker waits for the first chunk.
pub proof fn law_started_is_durable(ir: InitReq, events: Seq<Event>, id: SessionId)
    requires
        plausible(ir, events),
        run(ir, events).reply == Reply::Started(id),
    ensures
        run(ir, events).worker == (Worker::Waiting { id }),
        run(ir, events).artifacts.file == Stored::Intact(Seq::empty()),
        run(ir, events).artifacts.row is Committed,
{
    lemma_run_coherent(ir, events);
    if events.len() > 0 {
        lemma_run_coherent(ir, events.drop_last());
        assert(submitted(events) =~= submitted(events.drop_last()) + payload(events.last()));
    }
}

/// The metadata is stored as it came and never changed: whenever the
/// session has a row, the row holds the metadata that the session was
/// opened with.
pub proof fn law_metadata_stored_verbatim(ir: InitReq, events: Seq<Event>)
    requires
        plausible(ir, events),
        run(ir, events).artifacts.row.metadata() is Some,
    ensures
        run(ir, events).artifacts.row.metadata() == Some(content(ir.meta)),
{
    lemma_run_coherent(ir, events);
}

/// A row is marked completed for a completed upload and for no other: the
/// row of a session that was given up is deleted, never marked.
pub proof fn law_marked_only_on_success(ir: InitReq, events: Seq<Event>)
    requires
        plausible(ir, events),
    ensures
        run(ir, events).artifacts.row is Completed <==> run(ir, events).worker is Finished,
{
    lemma_run_coherent(ir, events);
}

/// How often the removal of the file was carried out in the run.
pub open spec fn removals(ir: InitReq, events: Seq<Event>) -> nat
    decreases events.len(),
{
    if events.len() == 0 {
        0
    } else if run(ir, events.drop_last()).pending is RemoveFile {
        removals(ir, events.drop_last()) + 1
    } else {
        removals(ir, events.drop_last())
    }
}

/// The file is removed at most once, and only when the session is given
/// up: while the session is alive, and after it has been completed, no
/// removal has been carried out.
pub proof fn law_file_removed_at_most_once(ir: InitReq, events: Seq<Event>)
    requires
        plausible(ir, events),
    ensures
        removals(ir, events) <= 1,
        removals(ir, events) == 1 ==> run(ir, events).worker is Erasing || run(
            ir,
            events,
        ).worker is Abandoned,
    decreases events.len(),
{
    if events.len() > 0 {
        law_file_removed_at_most_once(ir, events.drop_last());
        lemma_run_coherent(ir, events.drop_last());
    }
}

/// A worker ends in one of its two final states and stays there: once it
/// has said `Stop`, every later answer is `Stop` with no reply.
pub proof fn law_final_states_are_final(w: Worker, e: Event)
    requires
        w.ended(),
    ensures
        next(w, e).0 == w,
        next(w, e).1 == (Directive { reply: Reply::Nothing, next: Operation::Stop }),
{
}

/// A session's state never goes back: an opening session becomes active or
/// is aborted, an active one is completed or aborted, and a completed or
/// aborted one stays what it is. It is never both.
pub proof fn law_state_never_reversed(w: Worker, e: Event)
    ensures
        match w.state() {
            SessionState::Opening => !(next(w, e).0.state() is Completed),
            SessionState::Active => !(next(w, e).0.state() is Opening),
            SessionState::Completed => next(w, e).0.state() is Completed,
            SessionState::Aborted => next(w, e).0.state() is Aborted,
        },
{
}

/// The worker says `Stop` exactly when it enters or is in a final state.
pub proof fn law_stop_means_ended(w: Worker, e: Event)
    ensures
        next(w, e).1.next is Stop <==> next(w, e).0.ended(),
{
}

/// A session's id is disclosed only once the dispatcher has been told of
/// it: the reply `Started` comes with the good outcome of `Register`, for
/// the same id, and at no other time.
pub proof fn law_registered_before_disclosed(w: Worker, e: Event, id: SessionId)
    requires
        next(w, e).1.reply == Reply::Started(id),
    ensures
        w == (Worker::Registering { id }),
        e is Done,
        next(w, e).0 == (Worker::Waiting { id }),
{
}

/// `Done` is told only to the caller of the completing chunk, after the
/// flush and the completion mark have succeeded.
pub proof fn law_done_only_at_the_end(w: Worker, e: Event)
    requires
        next(w, e).1.reply == Reply::Appended(AppendResult::Done),
    ensures
        w is Sealing,
        e is Done,
        next(w, e).0 is Finished,
{
}

/// An empty chunk is never written: no `Write` carries zero bytes.
pub proof fn law_empty_chunk_is_not_written(w: Worker, e: Event)
    requires
        next(w, e).1.next is Write,
    ensures
        next(w, e).1.next matches Operation::Write { data } && content(data).len() > 0,
        w is Waiting,
        e matches Event::Chunk { data } && next(w, e).1.next == (Operation::Write { data }),
{
}

/// A given-up session is reported to its caller only after the cleanup:
/// the failure replies come with `Stop`.
pub proof fn law_failure_reported_after_cleanup(w: Worker, e: Event)
    requires
        next(w, e).1.reply is InitFailed || next(w, e).1.reply is AppendFailed,
    ensures
        next(w, e).1.next is Stop,
        next(w, e).0 is Abandoned,
{
}

} // verus!
