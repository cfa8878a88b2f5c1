//! A stored file as a stream of byte blocks.

use crate::payload::content;
use bytes::Bytes;
use vstd::prelude::*;

verus! {

/// Size of the buffer that a file is read through.
pub const BUFFER_SIZE: usize = 32768;

/// `Bytes::copy_from_slice` returns a value that holds a copy of the slice.
pub assume_specification[ Bytes::copy_from_slice ](data: &[u8]) -> (b: Bytes)
    ensures
        content(b) == data@,
;

/// What a stream yields next.
#[derive(Clone, Debug, PartialEq, Eq)]
pub enum Item {
    /// A block of the file.
    Block(Bytes),
    /// The read failed.
    Failed,
    /// The file is at its end: the stream is over.
    End,
}

/// What the stream yields after one read: `failed` tells whether the read
/// failed, `filled` is what it put into the buffer.
pub open spec fn yields(failed: bool, filled: Seq<u8>, item: Item) -> bool {
    if failed {
        item is Failed
    } else if filled.len() == 0 {
        item is End
    } else {
        item matches Item::Block(block) && content(block) == filled
    }
}

/// Turns the result of one read into the stream's next item: a failed read
/// is passed on, a read of nothing ends the stream, and what was read is
/// copied out of the buffer.
pub fn poll_next(failed: bool, filled: &[u8]) -> (item: Item)
    ensures
        yields(failed, filled@, item),
{
    if failed {
        Item::Failed
    } else if filled.len() == 0 {
        Item::End
    } else {
        Item::Block(Bytes::copy_from_slice(filled))
    }
}

} // verus!
