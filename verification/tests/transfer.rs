use bytes::Bytes;
use headers::HeaderValue;
use std::str::FromStr;
use upload_sessions::dlstream::{poll_next, Item, BUFFER_SIZE};
use upload_sessions::err::Response;
use upload_sessions::header::RangeHeader;

#[test]
fn buffer_is_32_kib() {
    assert_eq!(BUFFER_SIZE, 32 * 1024);
}

#[test]
fn a_read_block_is_copied_out() {
    let buffer = [1u8, 2, 3, 4];
    assert_eq!(poll_next(false, &buffer[..3]), Item::Block(Bytes::from_static(&[1, 2, 3])));
}

#[test]
fn a_read_of_nothing_ends_the_stream() {
    assert_eq!(poll_next(false, &[]), Item::End);
}

#[test]
fn a_failed_read_is_passed_on() {
    assert_eq!(poll_next(true, &[]), Item::Failed);
    assert_eq!(poll_next(true, &[1, 2]), Item::Failed);
}

#[test]
fn a_request_without_range_is_refused() {
    let refused = RangeHeader::from_request_parts(None).err().unwrap();
    assert_eq!(refused, Response { status: 400, body: "missing range header".to_string() });
}

#[test]
fn a_range_that_does_not_decode_is_refused() {
    let value = HeaderValue::from_static("lines=1-2");
    let refused = RangeHeader::from_request_parts(Some(&value)).err().unwrap();
    assert_eq!(refused, Response { status: 400, body: "invalid range header".to_string() });
}

#[test]
fn a_byte_range_is_accepted() {
    let value = HeaderValue::from_static("bytes=0-99");
    let range = RangeHeader::from_request_parts(Some(&value)).ok().unwrap();
    assert_eq!(range.0, headers::Range::bytes(0..100).unwrap());
}

#[test]
fn a_range_must_begin_with_the_byte_unit() {
    for value in ["bytes", "byte=0-1", "Bytes=0-1", " bytes=0-1", ""] {
        let value = HeaderValue::from_str(value).unwrap();
        assert!(RangeHeader::from_request_parts(Some(&value)).is_err());
    }
    for value in ["bytes=", "bytes=0-", "bytes=-5", "bytes=0-1,\t4-5"] {
        let value = HeaderValue::from_str(value).unwrap();
        assert!(RangeHeader::from_request_parts(Some(&value)).is_ok());
    }
}

#[test]
fn a_range_must_be_visible_text() {
    let value = HeaderValue::from_bytes(b"bytes=0-1\xfa").unwrap();
    let refused = RangeHeader::from_request_parts(Some(&value)).err().unwrap();
    assert_eq!(refused, Response { status: 400, body: "invalid range header".to_string() });
}

#[test]
fn an_accepted_range_holds_the_value() {
    let value = HeaderValue::from_static("bytes=5-9");
    let range = RangeHeader::from_request_parts(Some(&value)).ok().unwrap();
    let mut held = Vec::new();
    headers::Header::encode(&range.0, &mut held);
    assert_eq!(held, vec![value]);
}
