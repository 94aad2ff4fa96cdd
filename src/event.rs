use vstd::prelude::*;
use crate::field::{Tag, WireType};

verus! {

/// One unit of decoding progress, as seen by a transcript consumer.
#[derive(Clone, Copy, Debug)]
pub enum Event<'a> {
    /// A field header.
    Header { tag: Tag, wire_type: WireType },
    /// The declared length of a dynamically sized value.
    LengthDelimiter { wire_type: WireType, length: usize },
    /// A complete unsigned integer value.
    UInt64(u64),
    /// A complete signed integer value.
    SInt64(i64),
    /// A piece of a dynamically sized value, with the number of bytes of the
    /// value that are still to come after it.
    ValueChunk { wire_type: WireType, bytes: &'a [u8], remaining: usize },
}

} // verus!
