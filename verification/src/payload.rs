//! Byte payloads: metadata blobs and chunks.

use bytes::Bytes;
use vstd::prelude::*;

verus! {

/// `bytes::Bytes`, a shared block of bytes. Opaque: what it holds is named
/// by [`content`].
#[verifier::external_type_specification]
#[verifier::external_body]
pub struct ExBytes(bytes::Bytes);

/// The bytes that a `bytes::Bytes` holds, in order.
pub uninterp spec fn content(b: Bytes) -> Seq<u8>;

/// `Bytes::len` returns the number of bytes held.
pub assume_specification[ Bytes::len ](b: &Bytes) -> (n: usize)
    ensures
        n == content(*b).len(),
;

/// `Bytes::is_empty` tells whether no byte is held.
pub assume_specification[ Bytes::is_empty ](b: &Bytes) -> (empty: bool)
    ensures
        empty == (content(*b).len() == 0),
;

/// `Bytes::new` returns a value that holds no byte.
pub assume_specification[ Bytes::new ]() -> (b: Bytes)
    ensures
        content(b) == Seq::<u8>::empty(),
;

/// `Clone` of `Bytes` returns a value that holds the same bytes.
pub assume_specification[ <Bytes as Clone>::clone ](b: &Bytes) -> (copy: Bytes)
    ensures
        content(copy) == content(*b),
;

/// The largest metadata blob that a session may be opened with.
pub const METADATA_LIMIT: usize = 4096;

/// Whether a metadata blob is small enough to open a session with.
pub open spec fn metadata_fits(meta: Seq<u8>) -> bool {
    meta.len() <= METADATA_LIMIT
}

/// Tells whether a metadata blob is within the limit.
pub fn check_metadata(meta: &Bytes) -> (fits: bool)
    ensures
        fits == metadata_fits(content(*meta)),
{
    meta.len() <= METADATA_LIMIT
}

} // verus!
