use vstd::prelude::*;

verus! {

/// Numeric identifier of a field within a message.
pub type Tag = u64;

/// The closed set of wire types.
#[derive(Clone, Copy, Debug, PartialEq, Eq, Structural)]
pub enum WireType {
    /// Unsigned 64-bit integer, varint encoded.
    UInt64,
    /// Signed 64-bit integer, zigzag then varint encoded.
    SInt64,
    /// Length-prefixed raw bytes.
    Bytes,
    /// Length-prefixed UTF-8 text.
    String,
    /// Length-prefixed nested message.
    Message,
    /// Length-prefixed run of elements of one wire type.
    Sequence,
}

impl WireType {
    /// The three-bit code of this wire type in a field header.
    pub open spec fn spec_code(self) -> u64 {
        match self {
            WireType::UInt64 => 2,
            WireType::SInt64 => 3,
            WireType::Bytes => 4,
            WireType::String => 5,
            WireType::Message => 6,
            WireType::Sequence => 7,
        }
    }

    /// The three-bit code of this wire type in a field header.
    pub fn code(self) -> (r: u64)
        ensures
            r == self.spec_code(),
    {
        match self {
            WireType::UInt64 => 2,
            WireType::SInt64 => 3,
            WireType::Bytes => 4,
            WireType::String => 5,
            WireType::Message => 6,
            WireType::Sequence => 7,
        }
    }
}

/// Tag carried by an encoded field header: the bits above the low four.
pub open spec fn header_tag(header: u64) -> u64 {
    header / 16
}

/// Wire type code carried by an encoded field header: its low three bits.
/// (Bit three is the "critical" flag, which decoding does not examine.)
pub open spec fn header_code(header: u64) -> u64 {
    header % 8
}

} // verus!
