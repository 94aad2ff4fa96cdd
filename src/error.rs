use vstd::prelude::*;

verus! {

/// Everything that can go wrong while decoding or hashing.
///
/// All conditions are reported to the caller as they occur; nothing in the
/// decoder or the hasher retries or recovers on its own.
#[derive(Clone, Copy, Debug, PartialEq, Eq, Structural)]
pub enum Error {
    /// The decoder stack is already at its maximum depth.
    NestingDepth,
    /// A field header does not carry the expected tag or wire type, or its
    /// tag is not above the tag of the field decoded before it.
    HeaderMismatch,
    /// The input ends before a declared length (or a varint) does.
    TruncatedInput,
    /// A varint is not in its canonical (shortest) form.
    InvalidVarint,
    /// A string payload is not well-formed UTF-8.
    InvalidText,
    /// A sequence element runs past the end of the sequence's region.
    SequenceLength,
    /// An event does not fit the sequence hasher's current state.
    Hashing,
    /// The sequence hasher already rejected an earlier event.
    AlreadyFailed,
}

} // verus!
