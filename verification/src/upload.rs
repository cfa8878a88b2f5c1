//! The upload routes: what each request asks of the session store, and what
//! the client is told.

use crate::err::{Response, WebReport, BAD_REQUEST, NOT_FOUND, OK};
use crate::id::SessionId;
use crate::payload::{content, metadata_fits};
use crate::store::{
    append_outcome, Answer, AppendResult, DSReq, DataStoreHandle, Fault, InitReq,
};
use bytes::Bytes;
use vstd::prelude::*;

verus! {

/// Where in the upload a chunk belongs.
#[derive(Clone, Copy, Debug, PartialEq, Eq, Structural)]
pub struct ChunkParams {
    pub start: usize,
}

/// A chunk as submitted: its place and its bytes.
#[derive(Clone, Debug, PartialEq, Eq)]
pub struct UploadChunk {
    pub params: ChunkParams,
    pub segment: Bytes,
}

/// Body of the refusal of oversized metadata.
pub open spec fn too_large_body() -> Seq<char> {
    "Metadata may not be larger than 4096 bytes"@
}

/// Body of the answer for a session that is unknown or gone.
pub open spec fn gone_body() -> Seq<char> {
    "upload not present or gone"@
}

fn refuse_metadata() -> (response: Response)
    ensures
        response.shows(BAD_REQUEST, too_large_body()),
{
    Response { status: BAD_REQUEST, body: "Metadata may not be larger than 4096 bytes".to_owned() }
}

fn not_found() -> (response: Response)
    ensures
        response.shows(NOT_FOUND, gone_body()),
{
    Response { status: NOT_FOUND, body: "upload not present or gone".to_owned() }
}

/// `POST /api/upload`: the request to send to the dispatcher, or the
/// refusal to send to the client. Metadata over the limit is refused here,
/// before anything is created.
pub fn init_upload(store: &DataStoreHandle, meta: Bytes) -> (r: Result<DSReq, Response>)
    ensures
        metadata_fits(content(meta)) ==> r == Ok::<DSReq, Response>(DSReq::Init(InitReq { meta })),
        !metadata_fits(content(meta)) ==> (r matches Err(response) && response.shows(
            BAD_REQUEST,
            too_large_body(),
        )),
{
    match store.init_store(meta) {
        Ok(req) => Ok(req),
        Err(_) => Err(refuse_metadata()),
    }
}

/// What the client is told when `init_store` has come back with `outcome`.
pub open spec fn upload_started(outcome: Result<SessionId, Fault>, response: Response) -> bool {
    match outcome {
        Ok(id) => response.shows(OK, id.text()),
        Err(Fault::MetadataTooLarge) => response.shows(BAD_REQUEST, too_large_body()),
        Err(_) => response.is_opaque_error(),
    }
}

/// The response to `POST /api/upload`: the new session's id as plain text,
/// or the report of what went wrong.
pub fn init_response(outcome: Result<SessionId, Fault>) -> (response: Response)
    ensures
        upload_started(outcome, response),
{
    match outcome {
        Ok(id) => Response { status: OK, body: id.to_text() },
        Err(Fault::MetadataTooLarge) => refuse_metadata(),
        Err(fault) => WebReport::from_fault(fault).into_response(),
    }
}

/// `PATCH /api/upload/{id}`: the request to send to the dispatcher, or the
/// answer to send to the client at once. A path segment that names no
/// session is answered as a session that is gone. An empty body asks to
/// complete the session, any other to append it.
pub fn submit_chunk(store: &DataStoreHandle, id: &str, segment: Bytes) -> (r: Result<
    DSReq,
    Response,
>)
    ensures
        match SessionId::read(id@) {
            Some(session) => r matches Ok(DSReq::Chunk(req)) && req.id == session && content(
                req.data,
            ) == content(segment),
            None => r matches Err(response) && response.shows(NOT_FOUND, gone_body()),
        },
{
    match SessionId::parse(id) {
        Some(session) => {
            if segment.is_empty() {
                let req = store.complete_store(session);
                assert(content(segment) =~= Seq::<u8>::empty());
                assert(req matches DSReq::Chunk(c) && content(c.data) =~= Seq::<u8>::empty());
                Ok(req)
            } else {
                Ok(store.append_chunk(session, segment))
            }
        },
        None => Err(not_found()),
    }
}

/// What the client is told when a chunk for session `id` has come back with
/// `outcome`; `completing` tells whether the chunk was the empty one.
pub open spec fn chunk_submitted(
    id: SessionId,
    completing: bool,
    outcome: Result<AppendResult, Fault>,
    response: Response,
) -> bool {
    match outcome {
        Ok(AppendResult::Gone) => response.shows(NOT_FOUND, gone_body()),
        Ok(AppendResult::Continue) => if completing {
            response.is_opaque_error()
        } else {
            response.shows(OK, Seq::empty())
        },
        Ok(AppendResult::Done) => if completing {
            response.shows(OK, id.text())
        } else {
            response.is_opaque_error()
        },
        Err(_) => response.is_opaque_error(),
    }
}

/// The response to `PATCH /api/upload/{id}`: nothing when the chunk was
/// appended, the session's id when the session was completed, not-found when
/// the session is gone. An outcome that does not fit the chunk (a session
/// completed by a chunk that held bytes, or continued by the empty one) is
/// an internal fault.
pub fn chunk_response(id: SessionId, completing: bool, outcome: Result<AppendResult, Fault>) -> (response:
    Response)
    ensures
        chunk_submitted(id, completing, outcome, response),
{
    match outcome {
        Ok(AppendResult::Gone) => not_found(),
        Ok(AppendResult::Continue) => {
            if completing {
                WebReport::new("session continued after its completing chunk".to_owned()).into_response()
            } else {
                Response { status: OK, body: String::new() }
            }
        },
        Ok(AppendResult::Done) => {
            if completing {
                Response { status: OK, body: id.to_text() }
            } else {
                WebReport::new("session completed by a chunk that held bytes".to_owned()).into_response()
            }
        },
        Err(fault) => WebReport::from_fault(fault).into_response(),
    }
}

/// A chunk for a session that is gone is answered not-found, never with an
/// internal error: whether the dispatcher dropped the request or a worker
/// said so, and whether or not the chunk was the completing one.
pub proof fn law_gone_is_not_found(id: SessionId, completing: bool, response: Response)
    requires
        chunk_submitted(id, completing, append_outcome(Answer::Dropped), response)
            || chunk_submitted(
            id,
            completing,
            append_outcome(Answer::Value(AppendResult::Gone)),
            response,
        ),
    ensures
        response.shows(NOT_FOUND, gone_body()),
        !response.is_opaque_error(),
{
}

} // verus!
