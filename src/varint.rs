use vstd::prelude::*;
use crate::error::Error;

verus! {

/// What `vint64::decode` makes of the front of a byte string: the value and
/// the number of bytes it took, or the error it reports.
pub uninterp spec fn vint64_decoding(b: Seq<u8>) -> Result<(u64, nat), Error>;

/// Relies on `vint64::decode`: reads one prefix varint from the front of the
/// input, which on success takes between one and nine bytes. A truncated
/// varint is reported as `TruncatedInput`, a non-canonical one (leading
/// zeroes) as `InvalidVarint`.
#[verifier::external_body]
fn vint64_decode<'a>(input: &'a [u8]) -> (r: Result<(u64, &'a [u8]), Error>)
    ensures
        match r {
            Ok((v, rest)) => {
                &&& 1 <= input@.len() - rest@.len() <= 9
                &&& rest@ == input@.subrange(input@.len() - rest@.len(), input@.len() as int)
                &&& vint64_decoding(input@) == Ok::<(u64, nat), Error>(
                    (v, (input@.len() - rest@.len()) as nat),
                )
            },
            Err(e) => {
                &&& vint64_decoding(input@) == Err::<(u64, nat), Error>(e)
                &&& (e == Error::TruncatedInput || e == Error::InvalidVarint)
            },
        },
{
    let mut rest = input;
    match vint64::decode(&mut rest) {
        Ok(v) => Ok((v, rest)),
        Err(vint64::Error::Truncated) => Err(Error::TruncatedInput),
        Err(vint64::Error::LeadingZeroes) => Err(Error::InvalidVarint),
    }
}

/// A varint read from the front of `b`: its value and the bytes after it.
pub open spec fn read_varint(b: Seq<u8>) -> Result<(u64, Seq<u8>), Error> {
    match vint64_decoding(b) {
        Ok((v, n)) => Ok((v, b.subrange(n as int, b.len() as int))),
        Err(e) => Err(e),
    }
}

/// Read a varint from the front of `input`, leaving `input` just past it; on
/// error `input` is left as it was.
pub fn read<'a>(input: &mut &'a [u8]) -> (r: Result<u64, Error>)
    ensures
        match read_varint(old(input)@) {
            Ok((v, rest)) => r == Ok::<u64, Error>(v) && final(input)@ == rest && rest.len() < old(input)@.len(),
            Err(e) => r == Err::<u64, Error>(e) && final(input)@ == old(input)@,
        },
        r is Err ==> r == Err::<u64, Error>(Error::TruncatedInput) || r == Err::<u64, Error>(Error::InvalidVarint),
{
    match vint64_decode(*input) {
        Ok((v, rest)) => {
            *input = rest;
            Ok(v)
        },
        Err(e) => Err(e),
    }
}

/// Signed value of a zigzag-encoded integer: even codes are the non-negative
/// numbers `n / 2`, odd codes the negative numbers `-(n + 1) / 2`.
pub open spec fn unzigzag(n: u64) -> int {
    if n % 2 == 0 {
        (n / 2) as int
    } else {
        -((n as int + 1) / 2)
    }
}

/// Invert the zigzag transform.
pub fn zigzag_decode(n: u64) -> (r: i64)
    ensures
        r as int == unzigzag(n),
{
    if n % 2 == 0 {
        (n / 2) as i64
    } else {
        -((n / 2) as i64) - 1
    }
}

} // verus!
