use vstd::prelude::*;
use vstd::string::StringSliceAdditionalSpecFns;
use vstd::utf8::valid_utf8;
use crate::error::Error;
use crate::field::{Tag, WireType, header_tag};
use crate::message::{self, after_header, length_delimited, sint64_value};
use crate::sequence;
use crate::varint::{read, read_varint};

verus! {

#[verifier::external_type_specification]
#[verifier::external_body]
#[verifier::reject_recursive_types(T)]
pub struct ExHeaplessVec<T, const N: usize>(heapless::Vec<T, N>);

/// The frames held by the decoder's stack, bottom first.
pub uninterp spec fn stack_frames(v: heapless::Vec<message::Decoder, 16>) -> Seq<message::Decoder>;

/// Relies on `heapless::Vec::new`: an empty vector.
#[verifier::external_body]
fn stack_new() -> (r: heapless::Vec<message::Decoder, 16>)
    ensures
        stack_frames(r) == Seq::<message::Decoder>::empty(),
{
    heapless::Vec::new()
}

/// Relies on `heapless::Vec::push`: below capacity the item goes on top and
/// `Ok` comes back; at capacity the vector is unchanged and `Err` comes back.
#[verifier::external_body]
fn stack_push(v: &mut heapless::Vec<message::Decoder, 16>, f: message::Decoder) -> (r: bool)
    ensures
        stack_frames(*old(v)).len() < 16 ==> r && stack_frames(*final(v)) == stack_frames(*old(v)).push(f),
        stack_frames(*old(v)).len() >= 16 ==> !r && stack_frames(*final(v)) == stack_frames(*old(v)),
{
    v.push(f).is_ok()
}

/// Relies on `heapless::Vec::pop`: removes and returns the top item, or
/// returns `None` when the vector is empty.
#[verifier::external_body]
fn stack_pop(v: &mut heapless::Vec<message::Decoder, 16>) -> (r: Option<message::Decoder>)
    ensures
        stack_frames(*old(v)).len() > 0 ==> r == Some(stack_frames(*old(v)).last()) && stack_frames(*final(v)) == stack_frames(*old(v)).drop_last(),
        stack_frames(*old(v)).len() == 0 ==> r is None && stack_frames(*final(v)) == stack_frames(*old(v)),
{
    v.pop()
}

/// Relies on the length of a `heapless::Vec`, which never exceeds its
/// capacity.
#[verifier::external_body]
fn stack_len(v: &heapless::Vec<message::Decoder, 16>) -> (r: usize)
    ensures
        r == stack_frames(*v).len(),
        r <= 16,
{
    v.len()
}

/// Relies on `last` of a `heapless::Vec`: the top item, if any.
#[verifier::external_body]
fn stack_last(v: &heapless::Vec<message::Decoder, 16>) -> (r: Option<message::Decoder>)
    ensures
        stack_frames(*v).len() > 0 ==> r == Some(stack_frames(*v).last()),
        stack_frames(*v).len() == 0 ==> r is None,
{
    v.last().copied()
}

/// Greatest number of frames the decoder stack holds, the root included.
pub const MAX_DEPTH: usize = 16;

/// A message type that knows how to decode its own fields.
pub trait Message: Sized {
    /// Decode the fields of one message from `input`, the message's own
    /// bytes, using `decoder`, whose top frame belongs to this message.
    fn decode(decoder: &mut Decoder, input: &[u8]) -> (r: Result<Self, Error>);
}

/// The value and remaining input of an unsigned field `tag`.
pub open spec fn uint64_field(last: Option<Tag>, input: Seq<u8>, tag: Tag) -> Result<(u64, Seq<u8>), Error> {
    match after_header(last, input, tag, WireType::UInt64) {
        Ok(rest) => read_varint(rest),
        Err(e) => Err(e),
    }
}

/// The value and remaining input of a signed field `tag`.
pub open spec fn sint64_field(last: Option<Tag>, input: Seq<u8>, tag: Tag) -> Result<(int, Seq<u8>), Error> {
    match after_header(last, input, tag, WireType::SInt64) {
        Ok(rest) => sint64_value(rest),
        Err(e) => Err(e),
    }
}

/// The payload and remaining input of a length-prefixed field `tag` of type
/// `wire_type`.
pub open spec fn delimited_field(last: Option<Tag>, input: Seq<u8>, tag: Tag, wire_type: WireType) -> Result<(Seq<u8>, Seq<u8>), Error> {
    match after_header(last, input, tag, wire_type) {
        Ok(rest) => length_delimited(rest),
        Err(e) => Err(e),
    }
}

/// Decoder for nested messages: a stack of field decoders, one per message
/// currently open, the root at the bottom.
pub struct Decoder {
    stack: heapless::Vec<message::Decoder, 16>,
}

impl Decoder {
    /// The open frames, root first.
    pub closed spec fn frames(&self) -> Seq<message::Decoder> {
        stack_frames(self.stack)
    }

    /// The root frame is open and the stack is within its bound.
    pub open spec fn wf(&self) -> bool {
        1 <= self.frames().len() <= MAX_DEPTH
    }

    /// The frame of the innermost open message.
    pub open spec fn top(&self) -> message::Decoder {
        self.frames().last()
    }

    /// The frames after the top one has accepted the header of field `tag`.
    pub open spec fn advanced(&self, tag: Tag) -> Seq<message::Decoder> {
        self.frames().update(self.frames().len() - 1, message::Decoder { last_tag: Some(tag) })
    }

    /// A decoder with only the root frame open.
    pub fn new() -> (r: Self)
        ensures
            r.wf(),
            r.frames() == seq![message::Decoder { last_tag: None }],
    {
        let mut stack = stack_new();
        let _ = stack_push(&mut stack, message::Decoder::new());
        Decoder { stack }
    }

    /// Open a frame for a nested message; fails with `NestingDepth` when the
    /// stack is already full, leaving it as it was.
    pub fn push(&mut self) -> (r: Result<(), Error>)
        requires
            old(self).wf(),
        ensures
            final(self).wf(),
            old(self).frames().len() < MAX_DEPTH ==> r is Ok && final(self).frames() == old(self).frames().push(
                message::Decoder { last_tag: None },
            ),
            old(self).frames().len() == MAX_DEPTH ==> r == Err::<(), Error>(Error::NestingDepth) && final(self).frames()
                == old(self).frames(),
    {
        if stack_push(&mut self.stack, message::Decoder::new()) {
            Ok(())
        } else {
            Err(Error::NestingDepth)
        }
    }

    /// Close the frame of the innermost nested message. The root frame is
    /// never closed.
    pub fn pop(&mut self)
        requires
            old(self).wf(),
            old(self).frames().len() > 1,
        ensures
            final(self).wf(),
            final(self).frames() == old(self).frames().drop_last(),
    {
        let _ = stack_pop(&mut self.stack);
    }

    /// The frame of the innermost open message.
    pub fn peek(&self) -> (r: message::Decoder)
        requires
            self.wf(),
        ensures
            r == self.top(),
    {
        match stack_last(&self.stack) {
            Some(f) => f,
            None => message::Decoder::new(),
        }
    }

    /// Number of open frames.
    pub fn depth(&self) -> (r: usize)
        ensures
            r == self.frames().len(),
    {
        stack_len(&self.stack)
    }

    fn set_top(&mut self, f: message::Decoder)
        requires
            old(self).wf(),
        ensures
            final(self).wf(),
            final(self).frames() == old(self).frames().update(old(self).frames().len() - 1, f),
    {
        let _ = stack_pop(&mut self.stack);
        let _ = stack_push(&mut self.stack, f);
        assert(self.frames() =~= old(self).frames().update(old(self).frames().len() - 1, f));
    }

    /// Bring the stack back to `depth` frames: close the frames above it, or
    /// open fresh ones up to it.
    fn restore_depth(&mut self, depth: usize)
        requires
            1 <= depth <= MAX_DEPTH,
        ensures
            final(self).frames().len() == depth,
            old(self).frames().len() >= depth ==> final(self).frames() == old(self).frames().subrange(0, depth as int),
    {
        let ghost start = self.frames();
        assert(start.subrange(0, start.len() as int) =~= start);
        while stack_len(&self.stack) > depth
            invariant
                self.frames().len() <= start.len(),
                self.frames() == start.subrange(0, self.frames().len() as int),
                depth <= start.len() ==> depth <= self.frames().len(),
            decreases self.frames().len(),
        {
            let _ = stack_pop(&mut self.stack);
            assert(self.frames() =~= start.subrange(0, self.frames().len() as int));
        }
        while stack_len(&self.stack) < depth
            invariant
                depth <= MAX_DEPTH,
                self.frames().len() <= depth,
                depth <= start.len() ==> self.frames() == start.subrange(0, depth as int),
            decreases depth - self.frames().len(),
        {
            let _ = stack_push(&mut self.stack, message::Decoder::new());
        }
    }

    /// The tag of the next field in `input`, without consuming anything, or
    /// `None` at the end of the message.
    ///
    /// Fields that the encoder left out are simply not in the input. Schema
    /// code that may meet an optional field `t` asks for the next tag first:
    /// the field is absent when there is none, or when it is above `t`, and
    /// decoding it then is not attempted. Asking to decode a field whose
    /// header is not the next one is a `HeaderMismatch`.
    pub fn next_tag(&self, input: &[u8]) -> (r: Result<Option<Tag>, Error>)
        ensures
            input@.len() == 0 ==> r == Ok::<Option<Tag>, Error>(None),
            input@.len() > 0 ==> match read_varint(input@) {
                Ok((h, _)) => r == Ok::<Option<Tag>, Error>(Some(header_tag(h))),
                Err(e) => r == Err::<Option<Tag>, Error>(e),
            },
    {
        if input.len() == 0 {
            return Ok(None);
        }
        let mut cur = input;
        let header = read(&mut cur)?;
        Ok(Some(header / 16))
    }

    /// Decode the unsigned field `tag`.
    pub fn decode_uint64<'a>(&mut self, tag: Tag, input: &mut &'a [u8]) -> (r: Result<u64, Error>)
        requires
            old(self).wf(),
        ensures
            final(self).wf(),
            match uint64_field(old(self).top().last_tag, old(input)@, tag) {
                Ok((v, rest)) => r == Ok::<u64, Error>(v) && final(input)@ == rest && final(self).frames() == old(self).advanced(tag),
                Err(e) => r == Err::<u64, Error>(e) && final(input)@ == old(input)@ && final(self).frames() == old(self).frames(),
            },
    {
        let mut frame = self.peek();
        let mut cur = *input;
        frame.expect_header(&mut cur, tag, WireType::UInt64)?;
        let v = frame.decode_uint64(&mut cur)?;
        self.set_top(frame);
        *input = cur;
        Ok(v)
    }

    /// Decode the signed field `tag`.
    pub fn decode_sint64<'a>(&mut self, tag: Tag, input: &mut &'a [u8]) -> (r: Result<i64, Error>)
        requires
            old(self).wf(),
        ensures
            final(self).wf(),
            match sint64_field(old(self).top().last_tag, old(input)@, tag) {
                Ok((v, rest)) => r is Ok && r->Ok_0 as int == v && final(input)@ == rest && final(self).frames() == old(self).advanced(tag),
                Err(e) => r == Err::<i64, Error>(e) && final(input)@ == old(input)@ && final(self).frames() == old(self).frames(),
            },
    {
        let mut frame = self.peek();
        let mut cur = *input;
        frame.expect_header(&mut cur, tag, WireType::SInt64)?;
        let v = frame.decode_sint64(&mut cur)?;
        self.set_top(frame);
        *input = cur;
        Ok(v)
    }

    /// Decode the bytes field `tag`: a view of its payload in the input.
    pub fn decode_bytes<'a>(&mut self, tag: Tag, input: &mut &'a [u8]) -> (r: Result<&'a [u8], Error>)
        requires
            old(self).wf(),
        ensures
            final(self).wf(),
            match delimited_field(old(self).top().last_tag, old(input)@, tag, WireType::Bytes) {
                Ok((value, rest)) => r is Ok && r->Ok_0@ == value && final(input)@ == rest && final(self).frames() == old(self).advanced(tag),
                Err(e) => r == Err::<&'a [u8], Error>(e) && final(input)@ == old(input)@ && final(self).frames() == old(self).frames(),
            },
    {
        let mut frame = self.peek();
        let mut cur = *input;
        frame.expect_header(&mut cur, tag, WireType::Bytes)?;
        let v = frame.decode_bytes(&mut cur)?;
        self.set_top(frame);
        *input = cur;
        Ok(v)
    }
    /// Decode the string field `tag`: a view of its UTF-8 text in the input.
    pub fn decode_string<'a>(&mut self, tag: Tag, input: &mut &'a [u8]) -> (r: Result<&'a str, Error>)
        requires
            old(self).wf(),
        ensures
            final(self).wf(),
            match delimited_field(old(self).top().last_tag, old(input)@, tag, WireType::String) {
                Ok((value, rest)) => if valid_utf8(value) {
                    r is Ok && r->Ok_0.spec_bytes() == value && final(input)@ == rest && final(self).frames() == old(self).advanced(tag)
                } else {
                    r == Err::<&'a str, Error>(Error::InvalidText) && final(input)@ == old(input)@ && final(self).frames() == old(self).frames()
                },
                Err(e) => r == Err::<&'a str, Error>(e) && final(input)@ == old(input)@ && final(self).frames() == old(self).frames(),
            },
    {
        let mut frame = self.peek();
        let mut cur = *input;
        frame.expect_header(&mut cur, tag, WireType::String)?;
        let v = frame.decode_string(&mut cur)?;
        self.set_top(frame);
        *input = cur;
        Ok(v)
    }

    /// Decode the nested message field `tag` as an `M`: its bytes are handed
    /// to `M::decode` with a fresh frame pushed for it. Whatever `M::decode`
    /// does to the stack, the decoder comes back to the depth it had.
    pub fn decode_message<'a, M: Message>(&mut self, tag: Tag, input: &mut &'a [u8]) -> (r: Result<M, Error>)
        requires
            old(self).wf(),
        ensures
            final(self).wf(),
            final(self).frames().len() == old(self).frames().len(),
            r is Err ==> final(input)@ == old(input)@,
            match delimited_field(old(self).top().last_tag, old(input)@, tag, WireType::Message) {
                Ok((_, rest)) => {
                    &&& old(self).frames().len() == MAX_DEPTH ==> r == Err::<M, Error>(Error::NestingDepth) && final(self).frames() == old(self).frames()
                    &&& r is Ok ==> final(input)@ == rest && final(self).top().last_tag == Some(tag)
                },
                Err(e) => r == Err::<M, Error>(e) && final(self).frames() == old(self).frames(),
            },
    {
        let mut frame = self.peek();
        let mut cur = *input;
        frame.expect_header(&mut cur, tag, WireType::Message)?;
        let msg_bytes = frame.decode_bytes(&mut cur)?;
        let depth = self.depth();
        self.push()?;
        let result = M::decode(self, msg_bytes);
        self.restore_depth(depth);
        match result {
            Ok(msg) => {
                self.set_top(frame);
                *input = cur;
                Ok(msg)
            },
            Err(e) => Err(e),
        }
    }

    /// Decode the sequence field `tag` whose elements are of type `element`:
    /// an iterator over the sequence's region of the input.
    pub fn decode_seq<'a>(&mut self, tag: Tag, element: WireType, input: &mut &'a [u8]) -> (r: Result<sequence::Iter<'a>, Error>)
        requires
            old(self).wf(),
        ensures
            final(self).wf(),
            match delimited_field(old(self).top().last_tag, old(input)@, tag, WireType::Sequence) {
                Ok((region, rest)) => r is Ok && r->Ok_0.rest() == region && r->Ok_0.element_type() == element
                    && final(input)@ == rest && final(self).frames() == old(self).advanced(tag),
                Err(e) => r is Err && r->Err_0 == e && final(input)@ == old(input)@ && final(self).frames() == old(self).frames(),
            },
    {
        let mut frame = self.peek();
        let mut cur = *input;
        frame.expect_header(&mut cur, tag, WireType::Sequence)?;
        let region = frame.decode_bytes(&mut cur)?;
        self.set_top(frame);
        *input = cur;
        Ok(sequence::Iter::new(element, region))
    }
}

impl Default for Decoder {
    fn default() -> (r: Self)
        ensures
            r.wf(),
            r.frames() == seq![message::Decoder { last_tag: None }],
    {
        Decoder::new()
    }
}

} // verus!
