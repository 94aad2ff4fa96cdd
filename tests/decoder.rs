use veriform::{Decoder, Error, Message, WireType, MAX_DEPTH};

#[test]
fn decode_uint64() {
    let input = [138, 10, 85];
    let mut input_ref = &input[..];

    let value: u64 = Decoder::new().decode_uint64(42, &mut input_ref).unwrap();
    assert_eq!(value, 42);
    assert!(input_ref.is_empty());
}

#[test]
fn decode_sint64() {
    let input = [206, 10, 167];
    let mut input_ref = &input[..];

    let value: i64 = Decoder::new().decode_sint64(43, &mut input_ref).unwrap();
    assert_eq!(value, -42);
    assert!(input_ref.is_empty());
}

#[test]
fn decode_bytes() {
    let input = [73, 11, 98, 121, 116, 101, 115];
    let mut input_ref = &input[..];

    let bytes: &[u8] = Decoder::new().decode_bytes(2, &mut input_ref).unwrap();
    assert_eq!(bytes, &[98, 121, 116, 101, 115]);
    assert!(input_ref.is_empty());
}

#[test]
fn decode_string() {
    let input = [139, 7, 98, 97, 122];
    let mut input_ref = &input[..];

    let string: &str = Decoder::new().decode_string(4, &mut input_ref).unwrap();
    assert_eq!(string, "baz");
    assert!(input_ref.is_empty());
}

#[test]
fn bytes_view_points_into_input() {
    let input = [73, 11, 98, 121, 116, 101, 115];
    let mut input_ref = &input[..];

    let bytes = Decoder::new().decode_bytes(2, &mut input_ref).unwrap();
    assert_eq!(bytes.as_ptr(), input[2..].as_ptr());
    assert_eq!(bytes.len(), 5);
}

#[test]
fn wrong_tag_is_header_mismatch() {
    let input = [138, 10, 85];
    let mut input_ref = &input[..];

    let r = Decoder::new().decode_uint64(41, &mut input_ref);
    assert_eq!(r, Err(Error::HeaderMismatch));
    assert_eq!(input_ref.len(), 3);
}

#[test]
fn wrong_wire_type_is_header_mismatch() {
    let input = [138, 10, 85];
    let mut input_ref = &input[..];

    let r = Decoder::new().decode_sint64(42, &mut input_ref);
    assert_eq!(r, Err(Error::HeaderMismatch));
    assert_eq!(input_ref.len(), 3);
}

#[test]
fn repeated_tag_is_header_mismatch() {
    let input = [138, 10, 85, 138, 10, 85];
    let mut input_ref = &input[..];
    let mut decoder = Decoder::new();

    assert_eq!(decoder.decode_uint64(42, &mut input_ref), Ok(42));
    assert_eq!(decoder.decode_uint64(42, &mut input_ref), Err(Error::HeaderMismatch));
    assert_eq!(input_ref.len(), 3);
}

#[test]
fn short_payload_is_truncated_input() {
    let input = [73, 11, 1, 2];
    let mut input_ref = &input[..];

    let r = Decoder::new().decode_bytes(2, &mut input_ref);
    assert_eq!(r, Err(Error::TruncatedInput));
    assert_eq!(input_ref.len(), 4);
}

#[test]
fn empty_input_is_truncated_input() {
    let mut input_ref: &[u8] = &[];
    assert_eq!(Decoder::new().decode_uint64(1, &mut input_ref), Err(Error::TruncatedInput));
}

#[test]
fn non_canonical_varint_is_invalid() {
    let input = [2, 0];
    let mut input_ref = &input[..];

    let r = Decoder::new().decode_uint64(0, &mut input_ref);
    assert_eq!(r, Err(Error::InvalidVarint));
}

#[test]
fn malformed_utf8_is_invalid_text() {
    let input = [139, 7, 0xff, 0xfe, 0xfd];
    let mut input_ref = &input[..];

    let r = Decoder::new().decode_string(4, &mut input_ref);
    assert_eq!(r, Err(Error::InvalidText));
    assert_eq!(input_ref.len(), 5);
}

#[test]
fn zigzag_positive_value() {
    // header for tag 1, SInt64; then zigzag code 84, which is +42
    let input = [39, 169];
    let mut input_ref = &input[..];

    assert_eq!(Decoder::new().decode_sint64(1, &mut input_ref), Ok(42));
    assert!(input_ref.is_empty());
}

#[test]
fn depth_bound() {
    let mut decoder = Decoder::new();
    assert_eq!(decoder.depth(), 1);
    while decoder.depth() < MAX_DEPTH {
        assert_eq!(decoder.push(), Ok(()));
    }
    assert_eq!(decoder.depth(), 16);
    assert_eq!(decoder.push(), Err(Error::NestingDepth));
    assert_eq!(decoder.depth(), 16);
    decoder.pop();
    assert_eq!(decoder.depth(), 15);
}

#[test]
fn peek_tracks_last_tag() {
    let input = [138, 10, 85];
    let mut input_ref = &input[..];
    let mut decoder = Decoder::new();

    assert_eq!(decoder.peek().last_tag, None);
    decoder.decode_uint64(42, &mut input_ref).unwrap();
    assert_eq!(decoder.peek().last_tag, Some(42));
}

#[derive(Debug, PartialEq)]
struct Inner {
    value: u64,
}

impl Message for Inner {
    fn decode(decoder: &mut Decoder, input: &[u8]) -> Result<Self, Error> {
        let mut input_ref = input;
        let value = decoder.decode_uint64(1, &mut input_ref)?;
        Ok(Inner { value })
    }
}

/// Leaves an extra frame open and then fails.
struct Unbalanced;

impl Message for Unbalanced {
    fn decode(decoder: &mut Decoder, _input: &[u8]) -> Result<Self, Error> {
        decoder.push()?;
        Err(Error::HeaderMismatch)
    }
}

#[test]
fn decode_nested_message() {
    // tag 1, Message, 2 bytes: { tag 1, UInt64, 7 }
    let input = [45, 5, 37, 15];
    let mut input_ref = &input[..];
    let mut decoder = Decoder::new();

    let msg: Inner = decoder.decode_message(1, &mut input_ref).unwrap();
    assert_eq!(msg, Inner { value: 7 });
    assert!(input_ref.is_empty());
    assert_eq!(decoder.depth(), 1);
}

#[test]
fn failed_nested_decode_keeps_depth() {
    // the inner field carries tag 2 where tag 1 is expected
    let input = [45, 5, 69, 15];
    let mut input_ref = &input[..];
    let mut decoder = Decoder::new();
    decoder.push().unwrap();

    let r: Result<Inner, Error> = decoder.decode_message(1, &mut input_ref);
    assert_eq!(r, Err(Error::HeaderMismatch));
    assert_eq!(decoder.depth(), 2);
    assert_eq!(input_ref.len(), 4);

    let r: Result<Unbalanced, Error> = decoder.decode_message(1, &mut input_ref);
    assert!(r.is_err());
    assert_eq!(decoder.depth(), 2);
}

#[test]
fn message_at_full_depth_is_nesting_depth() {
    let input = [45, 5, 37, 15];
    let mut input_ref = &input[..];
    let mut decoder = Decoder::new();
    while decoder.depth() < MAX_DEPTH {
        decoder.push().unwrap();
    }

    let r: Result<Inner, Error> = decoder.decode_message(1, &mut input_ref);
    assert_eq!(r, Err(Error::NestingDepth));
    assert_eq!(decoder.depth(), 16);
    assert_eq!(input_ref.len(), 4);
}

#[test]
fn decode_uint64_sequence() {
    // tag 3, Sequence, 3 bytes: 1, 2, 3
    let input = [111, 7, 3, 5, 7];
    let mut input_ref = &input[..];

    let mut iter = Decoder::new().decode_seq(3, WireType::UInt64, &mut input_ref).unwrap();
    assert!(input_ref.is_empty());
    assert_eq!(iter.next_uint64(), Some(Ok(1)));
    assert_eq!(iter.next_uint64(), Some(Ok(2)));
    assert_eq!(iter.next_uint64(), Some(Ok(3)));
    assert!(iter.is_done());
    assert_eq!(iter.next_uint64(), None);
}

#[test]
fn decode_sint64_sequence() {
    // tag 3, Sequence, 2 bytes: -1, 1
    let input = [111, 5, 3, 5];
    let mut input_ref = &input[..];

    let mut iter = Decoder::new().decode_seq(3, WireType::SInt64, &mut input_ref).unwrap();
    assert_eq!(iter.next_sint64(), Some(Ok(-1)));
    assert_eq!(iter.next_sint64(), Some(Ok(1)));
    assert_eq!(iter.next_sint64(), None);
}

#[test]
fn decode_message_sequence() {
    // tag 3, Sequence, 6 bytes: two messages { tag 1, UInt64, 7 } and { tag 1, UInt64, 8 }
    let input = [111, 13, 5, 37, 15, 5, 37, 17];
    let mut input_ref = &input[..];

    let mut iter = Decoder::new().decode_seq(3, WireType::Message, &mut input_ref).unwrap();
    assert_eq!(iter.next_message::<Inner>(), Some(Ok(Inner { value: 7 })));
    assert_eq!(iter.next_message::<Inner>(), Some(Ok(Inner { value: 8 })));
    assert!(iter.next_message::<Inner>().is_none());
}

#[test]
fn element_overrunning_region_is_sequence_length() {
    // tag 3, Sequence, 1 byte: the start of a two-byte varint
    let input = [111, 3, 2];
    let mut input_ref = &input[..];

    let mut iter = Decoder::new().decode_seq(3, WireType::UInt64, &mut input_ref).unwrap();
    assert_eq!(iter.next_uint64(), Some(Err(Error::SequenceLength)));
    assert_eq!(iter.next_uint64(), None);
}

#[test]
fn element_of_other_type_is_header_mismatch() {
    let input = [111, 3, 3];
    let mut input_ref = &input[..];

    let mut iter = Decoder::new().decode_seq(3, WireType::UInt64, &mut input_ref).unwrap();
    assert_eq!(iter.next_sint64(), Some(Err(Error::HeaderMismatch)));
    assert_eq!(iter.next_uint64(), None);
}

#[test]
fn next_tag_reports_presence() {
    let decoder = Decoder::new();
    let input = [138, 10, 85];
    assert_eq!(decoder.next_tag(&input), Ok(Some(42)));
    assert_eq!(decoder.next_tag(&[]), Ok(None));
    assert_eq!(decoder.next_tag(&[2, 0]), Err(Error::InvalidVarint));

    // field 40 is absent: the next field is 42
    let mut input_ref = &input[..];
    let mut decoder = Decoder::new();
    assert!(decoder.next_tag(input_ref).unwrap().unwrap() > 40);
    assert_eq!(decoder.decode_uint64(42, &mut input_ref), Ok(42));
    assert_eq!(decoder.next_tag(input_ref), Ok(None));
}
