use bytes::Bytes;
use upload_sessions::err::Response;
use upload_sessions::id::SessionId;
use upload_sessions::store::worker::{start, Cause, Directive, Event, Operation, Reply, Worker};
use upload_sessions::store::{
    Answer, AppendResult, DSReq, DataStore, DataStoreHandle, Dispatch, Fault,
};
use upload_sessions::upload::{chunk_response, init_response, init_upload, submit_chunk};

/// Disk and database of the simulation, for one session.
struct World {
    issued: SessionId,
    pending_row: bool,
    row: Option<bool>,
    file: Option<Vec<u8>>,
    fail_write: bool,
    fail_create: bool,
}

impl World {
    fn new(issued: u128) -> World {
        World {
            issued: SessionId(issued),
            pending_row: false,
            row: None,
            file: None,
            fail_write: false,
            fail_create: false,
        }
    }

    /// Performs an operation that needs neither the dispatcher nor a chunk.
    fn perform(&mut self, op: &Operation) -> Event {
        match op {
            Operation::InsertRow { .. } => {
                self.pending_row = true;
                Event::RowInserted { id: self.issued }
            }
            Operation::CreateFile { .. } => {
                if self.fail_create {
                    Event::Failed
                } else {
                    self.file = Some(Vec::new());
                    Event::Done
                }
            }
            Operation::Commit => {
                self.pending_row = false;
                self.row = Some(false);
                Event::Done
            }
            Operation::Rollback => {
                self.pending_row = false;
                Event::Done
            }
            Operation::Write { data } => {
                if self.fail_write {
                    Event::Failed
                } else {
                    self.file.as_mut().unwrap().extend_from_slice(&data[..]);
                    Event::Done
                }
            }
            Operation::Flush => Event::Done,
            Operation::MarkCompleted { .. } => {
                self.row = Some(true);
                Event::Done
            }
            Operation::RemoveFile { .. } => {
                self.file = None;
                Event::Done
            }
            Operation::DeleteRow { .. } => {
                self.row = None;
                Event::Done
            }
            other => panic!("not for the world: {:?}", other),
        }
    }
}

/// A worker in the simulation: its state and whether it still listens.
struct Running {
    worker: Worker,
    listening: bool,
}

/// The whole system of the simulation: one dispatcher, its workers, and the
/// world of each. A worker's channel is its index.
struct System {
    handle: DataStoreHandle,
    dispatcher: DataStore<usize>,
    workers: Vec<Running>,
    worlds: Vec<World>,
    next_id: u128,
}

impl System {
    fn new() -> System {
        System {
            handle: DataStoreHandle::new(),
            dispatcher: DataStore::new(),
            workers: Vec::new(),
            worlds: Vec::new(),
            next_id: 0x1000,
        }
    }

    /// Drives worker `w` from `directive` until it waits for a chunk or
    /// stops. Returns the last reply that was not `Nothing`.
    fn drive(&mut self, w: usize, mut directive: Directive) -> Reply {
        let mut told = Reply::Nothing;
        loop {
            if directive.reply != Reply::Nothing {
                told = directive.reply;
            }
            let event = match &directive.next {
                Operation::AwaitChunk { timeout_secs } => {
                    assert_eq!(*timeout_secs, 60);
                    return told;
                }
                Operation::Stop => {
                    self.workers[w].listening = false;
                    return told;
                }
                Operation::Register { id } => {
                    assert!(!self.dispatcher.is_active(*id));
                    self.dispatcher.register(*id, w);
                    Event::Done
                }
                op => self.worlds[w].perform(op),
            };
            let (worker, next) = self.workers[w].worker.step(event);
            self.workers[w].worker = worker;
            directive = next;
        }
    }

    fn tell(&mut self, w: usize, event: Event) -> Reply {
        let (worker, directive) = self.workers[w].worker.step(event);
        self.workers[w].worker = worker;
        self.drive(w, directive)
    }

    /// `POST /api/upload` with this body.
    fn post(&mut self, meta: Bytes) -> Response {
        let req = match init_upload(&self.handle, meta) {
            Ok(req) => req,
            Err(response) => return response,
        };
        let answer = match self.dispatcher.handle_msg(req) {
            Dispatch::Spawn(ir) => {
                let (worker, directive) = start(ir);
                self.next_id += 1;
                self.worlds.push(World::new(self.next_id));
                self.workers.push(Running { worker, listening: true });
                let w = self.workers.len() - 1;
                match self.drive(w, directive) {
                    Reply::Started(id) => Answer::Value(id),
                    Reply::InitFailed => Answer::Failure,
                    other => panic!("unexpected reply {:?}", other),
                }
            }
            _ => panic!("an init request must spawn"),
        };
        init_response(self.handle.init_answered(answer))
    }

    /// Sends a chunk request through dispatcher and worker.
    fn append(&mut self, req: DSReq) -> Result<AppendResult, Fault> {
        let id = match &req {
            DSReq::Chunk(c) => c.id,
            _ => panic!("not a chunk"),
        };
        let forwarded = match self.dispatcher.handle_msg(req) {
            Dispatch::Forward(w, chunk) => Some((*w, chunk)),
            Dispatch::Gone(_) => None,
            Dispatch::Spawn(_) => panic!("a chunk must not spawn"),
        };
        let answer = match forwarded {
            None => Answer::Dropped,
            Some((w, chunk)) => {
                if !self.workers[w].listening {
                    Answer::Value(self.dispatcher.forward_failed(id))
                } else {
                    match self.tell(w, Event::Chunk { data: chunk.data }) {
                        Reply::Appended(result) => Answer::Value(result),
                        Reply::AppendFailed => Answer::Failure,
                        other => panic!("unexpected reply {:?}", other),
                    }
                }
            }
        };
        self.handle.append_answered(answer)
    }

    /// `PATCH /api/upload/{id}` with this body.
    fn patch(&mut self, id: &str, body: &'static [u8]) -> Response {
        let segment = Bytes::from_static(body);
        let completing = segment.is_empty();
        let req = match submit_chunk(&self.handle, id, segment) {
            Ok(req) => req,
            Err(response) => return response,
        };
        let session = match &req {
            DSReq::Chunk(c) => c.id,
            _ => panic!("not a chunk"),
        };
        let outcome = self.append(req);
        chunk_response(session, completing, outcome)
    }
}

#[test]
fn upload_one_chunk_and_complete() {
    let mut sys = System::new();
    let opened = sys.post(Bytes::from_static(b"0123456789"));
    assert_eq!(opened.status, 200);
    let u1 = opened.body.clone();
    assert_eq!(SessionId::parse(&u1), Some(SessionId(0x1001)));

    let appended = sys.patch(&u1, b"hello");
    assert_eq!(appended, Response { status: 200, body: String::new() });

    let done = sys.patch(&u1, b"");
    assert_eq!(done, Response { status: 200, body: u1.clone() });

    assert_eq!(sys.worlds[0].file.as_deref(), Some(&b"hello"[..]));
    assert_eq!(sys.worlds[0].row, Some(true));
    assert_eq!(sys.workers[0].worker, Worker::Finished { id: SessionId(0x1001) });
}

#[test]
fn oversized_metadata_is_refused() {
    let mut sys = System::new();
    let refused = sys.post(Bytes::from(vec![7u8; 5000]));
    assert_eq!(refused.status, 400);
    assert_eq!(refused.body, "Metadata may not be larger than 4096 bytes");
    assert!(sys.workers.is_empty());
    assert!(sys.worlds.is_empty());
    assert_eq!(sys.dispatcher.len(), 0);
}

#[test]
fn idle_session_is_evicted() {
    let mut sys = System::new();
    let opened = sys.post(Bytes::from_static(b"meta"));
    let u2 = opened.body.clone();
    assert_eq!(sys.patch(&u2, b"abc").status, 200);
    assert_eq!(sys.worlds[0].file.as_deref(), Some(&b"abc"[..]));

    assert_eq!(sys.tell(0, Event::TimedOut), Reply::Nothing);
    assert_eq!(sys.workers[0].worker, Worker::Abandoned { cause: Cause::Incomplete });

    let late = sys.patch(&u2, b"");
    assert_eq!(late.status, 404);
    assert_eq!(late.body, "upload not present or gone");
    assert_eq!(sys.worlds[0].file, None);
    assert_eq!(sys.worlds[0].row, None);
    assert_eq!(sys.dispatcher.len(), 0);
}

#[test]
fn unknown_id_is_gone() {
    let mut sys = System::new();
    let answer = sys.patch("unknown-id", b"x");
    assert_eq!(answer.status, 404);
    assert_eq!(answer.body, "upload not present or gone");
    let never_opened = SessionId(42).to_text();
    let answer = sys.patch(&never_opened, b"x");
    assert_eq!(answer.status, 404);
    assert!(sys.workers.is_empty());
    assert_eq!(sys.dispatcher.len(), 0);
}

#[test]
fn write_failure_cleans_up() {
    let mut sys = System::new();
    let opened = sys.post(Bytes::from_static(b"meta"));
    let u3 = opened.body.clone();
    assert_eq!(sys.patch(&u3, b"first").status, 200);

    sys.worlds[0].fail_write = true;
    let failed = sys.patch(&u3, b"second");
    assert_eq!(failed.status, 500);
    assert!(failed.body.starts_with("Internal server error; ray="));
    assert_eq!(sys.workers[0].worker, Worker::Abandoned { cause: Cause::Io });
    assert_eq!(sys.worlds[0].file, None);
    assert_eq!(sys.worlds[0].row, None);

    let after = sys.patch(&u3, b"third");
    assert_eq!(after.status, 404);
    let again = sys.patch(&u3, b"");
    assert_eq!(again.status, 404);
}

#[test]
fn chunks_are_written_in_the_order_submitted() {
    let mut sys = System::new();
    let id = sys.post(Bytes::from_static(b"m")).body;
    for part in [&b"one "[..], &b"two "[..], &b"three"[..]] {
        let req = sys.handle.append_chunk(SessionId::parse(&id).unwrap(), Bytes::copy_from_slice(part));
        assert_eq!(sys.append(req), Ok(AppendResult::Continue));
    }
    let req = sys.handle.complete_store(SessionId::parse(&id).unwrap());
    assert_eq!(sys.append(req), Ok(AppendResult::Done));
    assert_eq!(sys.worlds[0].file.as_deref(), Some(&b"one two three"[..]));
    assert_eq!(sys.worlds[0].row, Some(true));
}

#[test]
fn completed_session_is_gone_for_later_appends() {
    let mut sys = System::new();
    let id = sys.post(Bytes::from_static(b"m")).body;
    assert_eq!(sys.patch(&id, b"").status, 200);
    assert_eq!(sys.dispatcher.len(), 1);
    assert_eq!(sys.patch(&id, b"late").status, 404);
    assert_eq!(sys.dispatcher.len(), 0);
    assert_eq!(sys.patch(&id, b"later").status, 404);
    assert_eq!(sys.worlds[0].file.as_deref(), Some(&b""[..]));
    assert_eq!(sys.worlds[0].row, Some(true));
}

#[test]
fn sessions_do_not_disturb_each_other() {
    let mut sys = System::new();
    let a = sys.post(Bytes::from_static(b"a")).body;
    let b = sys.post(Bytes::from_static(b"b")).body;
    assert_ne!(a, b);
    assert_eq!(sys.patch(&a, b"for a").status, 200);
    assert_eq!(sys.patch(&b, b"for b").status, 200);
    sys.worlds[0].fail_write = true;
    assert_eq!(sys.patch(&a, b"breaks").status, 500);
    assert_eq!(sys.patch(&b, b", more").status, 200);
    assert_eq!(sys.patch(&b, b"").status, 200);
    assert_eq!(sys.worlds[1].file.as_deref(), Some(&b"for b, more"[..]));
    assert_eq!(sys.worlds[1].row, Some(true));
    assert_eq!(sys.worlds[0].file, None);
    assert_eq!(sys.worlds[0].row, None);
}

#[test]
fn failed_file_creation_leaves_nothing() {
    let mut world = World::new(9);
    world.fail_create = true;
    let (mut worker, mut directive) =
        start(upload_sessions::store::InitReq { meta: Bytes::from_static(b"m") });
    let mut replies = Vec::new();
    while directive.next != Operation::Stop {
        let event = world.perform(&directive.next);
        let (w, d) = worker.step(event);
        worker = w;
        directive = d;
        replies.push(directive.reply);
    }
    assert_eq!(worker, Worker::Abandoned { cause: Cause::Bootstrap });
    assert_eq!(replies.last(), Some(&Reply::InitFailed));
    assert!(!world.pending_row);
    assert_eq!(world.row, None);
    assert_eq!(world.file, None);
}
