use vstd::prelude::*;
use vstd::string::StringSliceAdditionalSpecFns;
use vstd::utf8::valid_utf8;
use crate::error::Error;
use crate::field::{Tag, WireType, header_code, header_tag};
use crate::varint::{read, read_varint, unzigzag, zigzag_decode};

verus! {

/// Relies on `core::str::from_utf8`: the bytes are accepted as text exactly
/// when they are well-formed UTF-8, and the text is those same bytes.
#[verifier::external_body]
fn utf8_text<'a>(b: &'a [u8]) -> (r: Option<&'a str>)
    ensures
        r is Some <==> valid_utf8(b@),
        r matches Some(s) ==> s.spec_bytes() == b@,
{
    core::str::from_utf8(b).ok()
}

/// Whether an encoded header is the one expected next in a message whose last
/// decoded field had tag `last`: it carries `tag` and `wire_type`, and `tag`
/// is above `last`.
pub open spec fn header_fits(last: Option<Tag>, tag: Tag, wire_type: WireType, header: u64) -> bool {
    &&& header_tag(header) == tag
    &&& header_code(header) == wire_type.spec_code()
    &&& last matches Some(l) ==> l < tag
}

/// The input after the header of the field `tag` of type `wire_type`.
pub open spec fn after_header(last: Option<Tag>, input: Seq<u8>, tag: Tag, wire_type: WireType) -> Result<Seq<u8>, Error> {
    match read_varint(input) {
        Ok((h, rest)) => if header_fits(last, tag, wire_type, h) {
            Ok(rest)
        } else {
            Err(Error::HeaderMismatch)
        },
        Err(e) => Err(e),
    }
}

/// A value with a declared length: the `n` bytes after the length prefix,
/// and what follows them.
pub open spec fn length_delimited(input: Seq<u8>) -> Result<(Seq<u8>, Seq<u8>), Error> {
    match read_varint(input) {
        Ok((n, rest)) => if n <= rest.len() {
            Ok((rest.subrange(0, n as int), rest.subrange(n as int, rest.len() as int)))
        } else {
            Err(Error::TruncatedInput)
        },
        Err(e) => Err(e),
    }
}

/// A signed value: a zigzag-encoded varint.
pub open spec fn sint64_value(input: Seq<u8>) -> Result<(int, Seq<u8>), Error> {
    match read_varint(input) {
        Ok((n, rest)) => Ok((unzigzag(n), rest)),
        Err(e) => Err(e),
    }
}

/// Field decoder for one level of message nesting. It remembers the tag of
/// the last field decoded, so that tags come in strictly increasing order.
#[derive(Clone, Copy, Debug, PartialEq, Eq, Structural)]
pub struct Decoder {
    /// Tag of the last field whose header was accepted.
    pub last_tag: Option<Tag>,
}

impl Decoder {
    /// A decoder at the start of a message.
    pub fn new() -> (r: Self)
        ensures
            r.last_tag is None,
    {
        Decoder { last_tag: None }
    }

    /// Read the next field header and check that it carries `tag` and
    /// `wire_type`, and that `tag` is above the previous field's tag.
    pub fn expect_header<'a>(&mut self, input: &mut &'a [u8], tag: Tag, wire_type: WireType) -> (r: Result<(), Error>)
        ensures
            match after_header(old(self).last_tag, old(input)@, tag, wire_type) {
                Ok(rest) => r is Ok && final(input)@ == rest && final(self).last_tag == Some(tag),
                Err(e) => r == Err::<(), Error>(e) && final(input)@ == old(input)@ && *final(self) == *old(self),
            },
    {
        let mut cur = *input;
        let header = read(&mut cur)?;
        if header / 16 != tag || header % 8 != wire_type.code() {
            return Err(Error::HeaderMismatch);
        }
        match self.last_tag {
            Some(last) => {
                if tag <= last {
                    return Err(Error::HeaderMismatch);
                }
            },
            None => {},
        }
        self.last_tag = Some(tag);
        *input = cur;
        Ok(())
    }

    /// Decode an unsigned varint value.
    pub fn decode_uint64<'a>(&mut self, input: &mut &'a [u8]) -> (r: Result<u64, Error>)
        ensures
            *final(self) == *old(self),
            match read_varint(old(input)@) {
                Ok((v, rest)) => r == Ok::<u64, Error>(v) && final(input)@ == rest,
                Err(e) => r == Err::<u64, Error>(e) && final(input)@ == old(input)@,
            },
    {
        read(input)
    }

    /// Decode a zigzag-encoded signed value.
    pub fn decode_sint64<'a>(&mut self, input: &mut &'a [u8]) -> (r: Result<i64, Error>)
        ensures
            *final(self) == *old(self),
            match sint64_value(old(input)@) {
                Ok((v, rest)) => r is Ok && r->Ok_0 as int == v && final(input)@ == rest,
                Err(e) => r == Err::<i64, Error>(e) && final(input)@ == old(input)@,
            },
    {
        let n = read(input)?;
        Ok(zigzag_decode(n))
    }

    /// Take a length-prefixed value: a view of its bytes in the input, which
    /// is advanced past them.
    pub fn decode_bytes<'a>(&mut self, input: &mut &'a [u8]) -> (r: Result<&'a [u8], Error>)
        ensures
            *final(self) == *old(self),
            match length_delimited(old(input)@) {
                Ok((value, rest)) => r is Ok && r->Ok_0@ == value && final(input)@ == rest,
                Err(e) => r == Err::<&'a [u8], Error>(e) && final(input)@ == old(input)@,
            },
    {
        let mut cur = *input;
        let n = read(&mut cur)?;
        if n > cur.len() as u64 {
            return Err(Error::TruncatedInput);
        }
        let n = n as usize;
        let value = vstd::slice::slice_subrange(cur, 0, n);
        *input = vstd::slice::slice_subrange(cur, n, cur.len());
        Ok(value)
    }

    /// Take a length-prefixed UTF-8 value: a view of its text in the input,
    /// which is advanced past it.
    pub fn decode_string<'a>(&mut self, input: &mut &'a [u8]) -> (r: Result<&'a str, Error>)
        ensures
            *final(self) == *old(self),
            match length_delimited(old(input)@) {
                Ok((value, rest)) => if valid_utf8(value) {
                    r is Ok && r->Ok_0.spec_bytes() == value && final(input)@ == rest
                } else {
                    r == Err::<&'a str, Error>(Error::InvalidText) && final(input)@ == old(input)@
                },
                Err(e) => r == Err::<&'a str, Error>(e) && final(input)@ == old(input)@,
            },
    {
        let mut cur = *input;
        let bytes = self.decode_bytes(&mut cur)?;
        match utf8_text(bytes) {
            Some(s) => {
                *input = cur;
                Ok(s)
            },
            None => Err(Error::InvalidText),
        }
    }
}

} // verus!
