//! The `Range` header of a download request.

use crate::err::{Response, BAD_REQUEST};
use headers::HeaderValue;
use vstd::prelude::*;

verus! {

/// `headers::HeaderValue`, the value of one header. Opaque.
#[verifier::external_type_specification]
#[verifier::external_body]
pub struct ExHeaderValue(headers::HeaderValue);

/// `headers::Range`, a decoded `Range` header. Opaque.
#[verifier::external_type_specification]
#[verifier::external_body]
pub struct ExRange(headers::Range);

/// `headers::Error`, the error of decoding a header. Opaque.
#[verifier::external_type_specification]
#[verifier::external_body]
pub struct ExHeaderError(headers::Error);

/// A `Range` header that was decoded.
pub struct RangeHeader(pub headers::Range);

/// The bytes that a `headers::HeaderValue` holds, in order.
pub uninterp spec fn header_bytes(value: HeaderValue) -> Seq<u8>;

/// The bytes of the header value that a decoded `headers::Range` holds.
pub uninterp spec fn range_bytes(range: headers::Range) -> Seq<u8>;

/// Whether a byte is visible text in a header: a printable ASCII character,
/// a space or a tab.
pub open spec fn visible(b: u8) -> bool {
    (32 <= b && b < 127) || b == 9
}

/// The six bytes `bytes=`, with which the value of a byte range begins.
pub open spec fn byte_range_prefix() -> Seq<u8> {
    seq![98u8, 121u8, 116u8, 101u8, 115u8, 61u8]
}

/// Whether the value of a `Range` header decodes: it is visible text and
/// begins with `bytes=`.
pub open spec fn range_decodes(value: Seq<u8>) -> bool {
    &&& forall|i: int| 0 <= i < value.len() ==> visible(#[trigger] value[i])
    &&& value.len() >= 6
    &&& value.subrange(0, 6) == byte_range_prefix()
}

/// Calls `decode` of `headers::Range` on one header value. Trusted, as its
/// source shows: it accepts the value exactly when it is visible text that
/// begins with `bytes=`, and the range it gives then holds that value.
#[verifier::external_body]
fn decode(value: &HeaderValue) -> (decoded: Result<headers::Range, headers::Error>)
    ensures
        match decoded {
            Ok(range) => range_decodes(header_bytes(*value)) && range_bytes(range) == header_bytes(
                *value,
            ),
            Err(_) => !range_decodes(header_bytes(*value)),
        },
{
    <headers::Range as headers::Header>::decode(&mut std::iter::once(value))
}

/// Body of the refusal of a request without a `Range` header.
pub open spec fn missing_body() -> Seq<char> {
    "missing range header"@
}

/// Body of the refusal of a request whose `Range` header does not decode.
pub open spec fn invalid_body() -> Seq<char> {
    "invalid range header"@
}

/// What a request is answered with, given what became of its `Range`
/// header: `None` if it had none, else what decoding its value gave.
pub open spec fn range_outcome(
    decoded: Option<Result<headers::Range, headers::Error>>,
    outcome: Result<RangeHeader, Response>,
) -> bool {
    match decoded {
        None => outcome matches Err(response) && response.shows(BAD_REQUEST, missing_body()),
        Some(Err(_)) => outcome matches Err(response) && response.shows(
            BAD_REQUEST,
            invalid_body(),
        ),
        Some(Ok(range)) => outcome matches Ok(accepted) && accepted.0 == range,
    }
}

impl RangeHeader {
    /// The range of a request, or the refusal to send: a request without
    /// the header, or with one that does not decode, is a bad request.
    pub fn settle(decoded: Option<Result<headers::Range, headers::Error>>) -> (outcome: Result<
        RangeHeader,
        Response,
    >)
        ensures
            range_outcome(decoded, outcome),
    {
        match decoded {
            None => Err(Response { status: BAD_REQUEST, body: "missing range header".to_owned() }),
            Some(Err(_)) => Err(
                Response { status: BAD_REQUEST, body: "invalid range header".to_owned() },
            ),
            Some(Ok(range)) => Ok(RangeHeader(range)),
        }
    }

    /// Reads the range from the value of a request's `Range` header, if it
    /// has one: a request without the header is refused, one whose value is
    /// no byte range is refused, and any other gives the range that holds
    /// the value.
    pub fn from_request_parts(header: Option<&HeaderValue>) -> (outcome: Result<RangeHeader, Response>)
        ensures
            range_read(header, outcome),
    {
        match header {
            None => RangeHeader::settle(None),
            Some(value) => RangeHeader::settle(Some(decode(value))),
        }
    }
}

/// What a request is answered with, given the value of its `Range` header,
/// if it has one.
pub open spec fn range_read(header: Option<&HeaderValue>, outcome: Result<RangeHeader, Response>) -> bool {
    match header {
        None => outcome matches Err(response) && response.shows(BAD_REQUEST, missing_body()),
        Some(value) => if range_decodes(header_bytes(*value)) {
            outcome matches Ok(accepted) && range_bytes(accepted.0) == header_bytes(*value)
        } else {
            outcome matches Err(response) && response.shows(BAD_REQUEST, invalid_body())
        },
    }
}

} // verus!
