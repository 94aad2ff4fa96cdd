use vstd::prelude::*;
use digest::Digest;
use sha2::Sha256;
use crate::field::WireType;

verus! {

#[verifier::external_type_specification]
#[verifier::external_body]
pub struct ExSha256(Sha256);

/// The bytes that a SHA-256 state has absorbed since it was created.
pub uninterp spec fn absorbed(d: Sha256) -> Seq<u8>;

/// The SHA-256 digest of a byte string.
pub uninterp spec fn sha256_of(b: Seq<u8>) -> Seq<u8>;

/// Relies on `Digest::new` for sha2's `Sha256`: a fresh state has absorbed
/// nothing.
#[verifier::external_body]
fn sha256_new() -> (r: Sha256)
    ensures
        absorbed(r) == Seq::<u8>::empty(),
{
    <Sha256 as Digest>::new()
}

/// Relies on `Digest::update` for sha2's `Sha256`: the state goes on to absorb
/// `data` after what it absorbed before.
#[verifier::external_body]
fn sha256_update(d: &mut Sha256, data: &[u8])
    ensures
        absorbed(*final(d)) == absorbed(*old(d)) + data@,
{
    <Sha256 as Digest>::update(d, data)
}

/// Relies on `Digest::finalize` for sha2's `Sha256`: the 32-byte digest of
/// everything the state absorbed.
#[verifier::external_body]
fn sha256_finalize(d: Sha256) -> (r: Vec<u8>)
    ensures
        r@ == sha256_of(absorbed(d)),
        r@.len() == 32,
{
    <Sha256 as Digest>::finalize(d).to_vec()
}

/// Little-endian bytes of a 64-bit value.
pub open spec fn le_bytes(v: u64) -> Seq<u8> {
    seq![
        v as u8,
        (v >> 8u64) as u8,
        (v >> 16u64) as u8,
        (v >> 24u64) as u8,
        (v >> 32u64) as u8,
        (v >> 40u64) as u8,
        (v >> 48u64) as u8,
        (v >> 56u64) as u8,
    ]
}

/// What committing a fixed-size value adds to the transcript: its wire type
/// code, then its bytes.
pub open spec fn fixed_commit(wire_type: WireType, bytes: Seq<u8>) -> Seq<u8> {
    seq![wire_type.spec_code() as u8] + bytes
}

/// What committing the declared size of a dynamically sized value adds to
/// the transcript: its wire type code, then the length in little-endian.
pub open spec fn length_commit(wire_type: WireType, length: usize) -> Seq<u8> {
    seq![wire_type.spec_code() as u8] + le_bytes(length as u64)
}

/// Little-endian bytes of a 64-bit value.
pub(crate) fn le_vec(v: u64) -> (r: Vec<u8>)
    ensures
        r@ == le_bytes(v),
{
    let r = vec![
        v as u8,
        (v >> 8u64) as u8,
        (v >> 16u64) as u8,
        (v >> 24u64) as u8,
        (v >> 32u64) as u8,
        (v >> 40u64) as u8,
        (v >> 48u64) as u8,
        (v >> 56u64) as u8,
    ];
    assert(r@ =~= le_bytes(v));
    r
}

/// Incremental hash accumulator: a SHA-256 state that absorbs wire type
/// codes, declared lengths and value bytes in the order they are committed.
pub struct Transcript {
    digest: Sha256,
}

impl Transcript {
    /// Every byte committed so far, in order.
    pub closed spec fn view(&self) -> Seq<u8> {
        absorbed(self.digest)
    }

    /// An accumulator with nothing committed.
    pub fn new() -> (r: Self)
        ensures
            r@ == Seq::<u8>::empty(),
    {
        Transcript { digest: sha256_new() }
    }

    fn commit_code(&mut self, wire_type: WireType)
        ensures
            final(self)@ == old(self)@ + seq![wire_type.spec_code() as u8],
    {
        let code = vec![wire_type.code() as u8];
        sha256_update(&mut self.digest, code.as_slice());
        assert(code@ =~= seq![wire_type.spec_code() as u8]);
    }

    /// Commit a value whose encoding always has the same width.
    pub fn fixed_size_value(&mut self, wire_type: WireType, bytes: &[u8])
        ensures
            final(self)@ == old(self)@ + fixed_commit(wire_type, bytes@),
    {
        self.commit_code(wire_type);
        sha256_update(&mut self.digest, bytes);
        assert(final(self)@ =~= old(self)@ + fixed_commit(wire_type, bytes@));
    }

    /// Commit the wire type and declared length of a value that is about to
    /// arrive in chunks.
    pub fn dynamically_sized_value(&mut self, wire_type: WireType, length: usize)
        ensures
            final(self)@ == old(self)@ + length_commit(wire_type, length),
    {
        self.commit_code(wire_type);
        let len_bytes = le_vec(length as u64);
        sha256_update(&mut self.digest, len_bytes.as_slice());
        assert(final(self)@ =~= old(self)@ + length_commit(wire_type, length));
    }

    /// Absorb a chunk of a value's payload.
    pub fn input(&mut self, bytes: &[u8])
        ensures
            final(self)@ == old(self)@ + bytes@,
    {
        sha256_update(&mut self.digest, bytes);
    }

    /// The digest of everything committed.
    pub fn finalize(self) -> (r: Vec<u8>)
        ensures
            r@ == sha256_of(self@),
            r@.len() == 32,
    {
        sha256_finalize(self.digest)
    }
}

} // verus!
