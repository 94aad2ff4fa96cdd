use vstd::prelude::*;
use crate::decoder::{Decoder, Message};
use crate::error::Error;
use crate::field::WireType;
use crate::message::{length_delimited, sint64_value};
use crate::varint::{read, read_varint, zigzag_decode};

verus! {

/// The error an element reports: running out of input inside the sequence's
/// region means the element overruns the declared length.
pub open spec fn element_error(e: Error) -> Error {
    if e == Error::TruncatedInput {
        Error::SequenceLength
    } else {
        e
    }
}

fn element_err(e: Error) -> (r: Error)
    ensures
        r == element_error(e),
{
    if e == Error::TruncatedInput {
        Error::SequenceLength
    } else {
        e
    }
}

/// Lazy, single-pass iterator over the elements of a sequence, all of one
/// wire type, packed back to back in the sequence's region.
///
/// An element that fails to decode ends the iteration.
pub struct Iter<'a> {
    wire_type: WireType,
    remaining: &'a [u8],
}

impl<'a> Iter<'a> {
    /// The wire type of the elements.
    pub closed spec fn element_type(&self) -> WireType {
        self.wire_type
    }

    /// The part of the region not yet decoded.
    pub closed spec fn rest(&self) -> Seq<u8> {
        self.remaining@
    }

    /// An iterator over the elements of type `wire_type` packed in `region`.
    pub fn new(wire_type: WireType, region: &'a [u8]) -> (r: Self)
        ensures
            r.element_type() == wire_type,
            r.rest() == region@,
    {
        Iter { wire_type, remaining: region }
    }

    /// The region is used up: no element remains.
    pub fn is_done(&self) -> (r: bool)
        ensures
            r == (self.rest().len() == 0),
    {
        self.remaining.len() == 0
    }

    /// End the iteration: nothing of the region is left to decode.
    fn stop(&mut self)
        ensures
            final(self).rest().len() == 0,
            final(self).element_type() == old(self).element_type(),
    {
        self.remaining = vstd::slice::slice_subrange(self.remaining, 0, 0);
    }

    /// The next element of a sequence of unsigned integers.
    pub fn next_uint64(&mut self) -> (r: Option<Result<u64, Error>>)
        ensures
            final(self).element_type() == old(self).element_type(),
            old(self).rest().len() == 0 ==> r is None && final(self).rest() == old(self).rest(),
            old(self).rest().len() > 0 && old(self).element_type() != WireType::UInt64 ==> r == Some(
                Err::<u64, Error>(Error::HeaderMismatch),
            ) && final(self).rest().len() == 0,
            old(self).rest().len() > 0 && old(self).element_type() == WireType::UInt64 ==> match read_varint(
                old(self).rest(),
            ) {
                Ok((v, rest)) => r == Some(Ok::<u64, Error>(v)) && final(self).rest() == rest,
                Err(e) => r == Some(Err::<u64, Error>(element_error(e))) && final(self).rest().len() == 0,
            },
    {
        if self.remaining.len() == 0 {
            return None;
        }
        if self.wire_type != WireType::UInt64 {
            self.stop();
            return Some(Err(Error::HeaderMismatch));
        }
        match read(&mut self.remaining) {
            Ok(v) => Some(Ok(v)),
            Err(e) => {
                self.stop();
                Some(Err(element_err(e)))
            },
        }
    }

    /// The next element of a sequence of signed integers.
    pub fn next_sint64(&mut self) -> (r: Option<Result<i64, Error>>)
        ensures
            final(self).element_type() == old(self).element_type(),
            old(self).rest().len() == 0 ==> r is None && final(self).rest() == old(self).rest(),
            old(self).rest().len() > 0 && old(self).element_type() != WireType::SInt64 ==> r == Some(
                Err::<i64, Error>(Error::HeaderMismatch),
            ) && final(self).rest().len() == 0,
            old(self).rest().len() > 0 && old(self).element_type() == WireType::SInt64 ==> match sint64_value(
                old(self).rest(),
            ) {
                Ok((v, rest)) => (r matches Some(Ok(x)) && x as int == v) && final(self).rest() == rest,
                Err(e) => r == Some(Err::<i64, Error>(element_error(e))) && final(self).rest().len() == 0,
            },
    {
        if self.remaining.len() == 0 {
            return None;
        }
        if self.wire_type != WireType::SInt64 {
            self.stop();
            return Some(Err(Error::HeaderMismatch));
        }
        match read(&mut self.remaining) {
            Ok(n) => Some(Ok(zigzag_decode(n))),
            Err(e) => {
                self.stop();
                Some(Err(element_err(e)))
            },
        }
    }

    /// The next element of a sequence of messages: its length-prefixed bytes
    /// are decoded as an `M` by a fresh decoder.
    pub fn next_message<M: Message>(&mut self) -> (r: Option<Result<M, Error>>)
        ensures
            final(self).element_type() == old(self).element_type(),
            old(self).rest().len() == 0 ==> r is None && final(self).rest() == old(self).rest(),
            old(self).rest().len() > 0 && old(self).element_type() != WireType::Message ==> (r matches Some(
                Err(Error::HeaderMismatch),
            ) && final(self).rest().len() == 0),
            old(self).rest().len() > 0 && old(self).element_type() == WireType::Message ==> match length_delimited(
                old(self).rest(),
            ) {
                Ok((_, rest)) => r is Some && (r matches Some(Ok(_)) ==> final(self).rest() == rest) && (r matches Some(Err(_))
                    ==> final(self).rest().len() == 0),
                Err(e) => (r matches Some(Err(x)) && x == element_error(e)) && final(self).rest().len() == 0,
            },
    {
        if self.remaining.len() == 0 {
            return None;
        }
        if self.wire_type != WireType::Message {
            self.stop();
            return Some(Err(Error::HeaderMismatch));
        }
        let mut frame = crate::message::Decoder::new();
        match frame.decode_bytes(&mut self.remaining) {
            Ok(bytes) => {
                let mut decoder = Decoder::new();
                match M::decode(&mut decoder, bytes) {
                    Ok(m) => Some(Ok(m)),
                    Err(e) => {
                        self.stop();
                        Some(Err(e))
                    },
                }
            },
            Err(e) => {
                self.stop();
                Some(Err(element_err(e)))
            },
        }
    }
}

} // verus!
