use bytes::Bytes;
use upload_sessions::err::{Response, WebReport, BAD_REQUEST, INTERNAL_SERVER_ERROR, NOT_FOUND, OK};
use upload_sessions::id::SessionId;
use upload_sessions::store::{AppendResult, ChunkReq, DSReq, DataStoreHandle, Fault, InitReq};
use upload_sessions::upload::{
    chunk_response, init_response, init_upload, submit_chunk, ChunkParams, UploadChunk,
};

const TEXT: &str = "a1a2a3a4-b1b2-c1c2-d1d2-d3d4d5d6d7d8";
const ID: SessionId = SessionId(0xa1a2a3a4b1b2c1c2d1d2d3d4d5d6d7d8);

fn is_opaque(response: &Response) -> bool {
    let prefix = "Internal server error; ray=";
    response.status == 500
        && response.body.starts_with(prefix)
        && match SessionId::parse(&response.body[prefix.len()..]) {
            Some(ray) => (ray.0 >> 76) & 0xf == 4 && (ray.0 >> 62) & 0x3 == 2,
            None => false,
        }
}

#[test]
fn status_codes() {
    assert_eq!((OK, BAD_REQUEST, NOT_FOUND, INTERNAL_SERVER_ERROR), (200, 400, 404, 500));
}

#[test]
fn init_upload_passes_small_metadata_on() {
    let handle = DataStoreHandle::new();
    let meta = Bytes::from_static(b"0123456789");
    assert_eq!(init_upload(&handle, meta.clone()), Ok(DSReq::Init(InitReq { meta })));
}

#[test]
fn init_upload_refuses_large_metadata() {
    let handle = DataStoreHandle::new();
    let refused = init_upload(&handle, Bytes::from(vec![0u8; 5000])).unwrap_err();
    assert_eq!(
        refused,
        Response { status: 400, body: "Metadata may not be larger than 4096 bytes".to_string() }
    );
    assert!(init_upload(&handle, Bytes::from(vec![0u8; 4096])).is_ok());
    assert!(init_upload(&handle, Bytes::from(vec![0u8; 4097])).is_err());
}

#[test]
fn init_response_shows_the_id_or_the_fault() {
    assert_eq!(init_response(Ok(ID)), Response { status: 200, body: TEXT.to_string() });
    assert_eq!(init_response(Err(Fault::MetadataTooLarge)).status, 400);
    assert!(is_opaque(&init_response(Err(Fault::SessionFailed))));
    assert!(is_opaque(&init_response(Err(Fault::Unavailable))));
}

#[test]
fn submit_chunk_reads_the_id_and_builds_the_request() {
    let handle = DataStoreHandle::new();
    assert_eq!(
        submit_chunk(&handle, TEXT, Bytes::from_static(b"abc")),
        Ok(DSReq::Chunk(ChunkReq { id: ID, data: Bytes::from_static(b"abc") }))
    );
    assert_eq!(
        submit_chunk(&handle, TEXT, Bytes::new()),
        Ok(DSReq::Chunk(ChunkReq { id: ID, data: Bytes::new() }))
    );
}

#[test]
fn submit_chunk_answers_not_found_for_what_is_no_id() {
    let handle = DataStoreHandle::new();
    let answer = submit_chunk(&handle, "unknown-id", Bytes::from_static(b"x")).unwrap_err();
    assert_eq!(answer, Response { status: 404, body: "upload not present or gone".to_string() });
}

#[test]
fn chunk_response_for_each_outcome() {
    assert_eq!(
        chunk_response(ID, false, Ok(AppendResult::Continue)),
        Response { status: 200, body: String::new() }
    );
    assert_eq!(
        chunk_response(ID, true, Ok(AppendResult::Done)),
        Response { status: 200, body: TEXT.to_string() }
    );
    let gone = Response { status: 404, body: "upload not present or gone".to_string() };
    assert_eq!(chunk_response(ID, false, Ok(AppendResult::Gone)), gone);
    assert_eq!(chunk_response(ID, true, Ok(AppendResult::Gone)), gone);
    assert!(is_opaque(&chunk_response(ID, true, Ok(AppendResult::Continue))));
    assert!(is_opaque(&chunk_response(ID, false, Ok(AppendResult::Done))));
    assert!(is_opaque(&chunk_response(ID, false, Err(Fault::SessionFailed))));
    assert!(is_opaque(&chunk_response(ID, true, Err(Fault::Unavailable))));
}

#[test]
fn a_report_never_shows_its_detail() {
    let report = WebReport::new("disk full at /var/data".to_string());
    let shown = report.response_for(ID);
    assert_eq!(
        shown,
        Response { status: 500, body: format!("Internal server error; ray={}", TEXT) }
    );
    let drawn = report.clone().into_response();
    assert!(is_opaque(&drawn));
    assert!(!drawn.body.contains("disk"));
    assert_ne!(report.clone().into_response(), report.into_response());
}

#[test]
fn a_report_of_a_fault_names_it_for_the_log() {
    assert_eq!(WebReport::from_fault(Fault::MetadataTooLarge).detail, "metadata too large");
    assert_eq!(WebReport::from_fault(Fault::SessionFailed).detail, "session failed");
    assert_eq!(WebReport::from_fault(Fault::Unavailable).detail, "session store unavailable");
}

#[test]
fn chunk_params_carry_the_start() {
    let chunk = UploadChunk { params: ChunkParams { start: 12 }, segment: Bytes::from_static(b"s") };
    assert_eq!(chunk.params.start, 12);
    assert_eq!(chunk.segment.len(), 1);
}
