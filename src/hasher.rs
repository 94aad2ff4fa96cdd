use vstd::prelude::*;
use crate::error::Error;
use crate::event::Event;
use crate::field::WireType;
use crate::verihash::{Transcript, fixed_commit, le_bytes, le_vec, length_commit, sha256_of};

verus! {

/// Where the sequence hasher stands between two events.
#[derive(Clone, Copy, Debug, PartialEq, Eq, Structural)]
pub enum State {
    /// No value in progress.
    Initial,
    /// Inside a bytes value, with this many payload bytes still to come.
    Bytes { remaining: usize },
    /// Inside a string value, with this many payload bytes still to come.
    String { remaining: usize },
    /// Inside a message value, with this many payload bytes still to come.
    ///
    /// The payload of a nested message is absorbed as flat bytes, like that of
    /// a bytes value; it is not folded in as a digest of its own.
    Message { remaining: usize },
}

/// The state that waits for `remaining` more payload bytes of a value of
/// `wire_type` (back to `Initial` once nothing remains).
pub open spec fn awaiting(wire_type: WireType, remaining: usize) -> State {
    if remaining == 0 {
        State::Initial
    } else {
        match wire_type {
            WireType::Bytes => State::Bytes { remaining },
            WireType::String => State::String { remaining },
            _ => State::Message { remaining },
        }
    }
}

/// The value in progress in a state: its wire type and how many payload bytes
/// it still expects.
pub open spec fn in_progress(s: State) -> Option<(WireType, usize)> {
    match s {
        State::Initial => None,
        State::Bytes { remaining } => Some((WireType::Bytes, remaining)),
        State::String { remaining } => Some((WireType::String, remaining)),
        State::Message { remaining } => Some((WireType::Message, remaining)),
    }
}

pub open spec fn is_dynamically_sized(wire_type: WireType) -> bool {
    wire_type == WireType::Bytes || wire_type == WireType::String || wire_type == WireType::Message
}

/// One transition: the next state and the bytes committed to the transcript,
/// or `None` where the event does not fit the state.
pub open spec fn step(s: State, e: Event) -> Option<(State, Seq<u8>)> {
    match e {
        Event::LengthDelimiter { wire_type, length } => {
            if s == State::Initial && is_dynamically_sized(wire_type) {
                Some((
                    match wire_type {
                        WireType::Bytes => State::Bytes { remaining: length },
                        WireType::String => State::String { remaining: length },
                        _ => State::Message { remaining: length },
                    },
                    length_commit(wire_type, length),
                ))
            } else {
                None
            }
        },
        Event::UInt64(v) => {
            if s == State::Initial {
                Some((State::Initial, fixed_commit(WireType::UInt64, le_bytes(v))))
            } else {
                None
            }
        },
        Event::SInt64(v) => {
            if s == State::Initial {
                Some((State::Initial, fixed_commit(WireType::SInt64, le_bytes(v as u64))))
            } else {
                None
            }
        },
        Event::ValueChunk { wire_type, bytes, remaining } => {
            match in_progress(s) {
                Some((w, r)) => {
                    if w == wire_type && bytes@.len() <= r && r - bytes@.len() == remaining {
                        Some((awaiting(wire_type, remaining), bytes@))
                    } else {
                        None
                    }
                },
                None => None,
            }
        },
        Event::Header { .. } => None,
    }
}

/// What hashing one event does to a hasher's state and transcript: a failed
/// hasher stays failed, and a rejected event fails it.
pub open spec fn hash_step(st: Option<State>, t: Seq<u8>, e: Event) -> (Option<State>, Seq<u8>) {
    match st {
        None => (None, t),
        Some(s) => match step(s, e) {
            None => (None, t),
            Some((n, out)) => (Some(n), t + out),
        },
    }
}

/// The error, if any, that hashing one event reports.
pub open spec fn step_error(st: Option<State>, e: Event) -> Option<Error> {
    match st {
        None => Some(Error::AlreadyFailed),
        Some(s) => if step(s, e) is None {
            Some(Error::Hashing)
        } else {
            None
        },
    }
}

/// Hashing a run of events, one after the other.
pub open spec fn replay(st: Option<State>, t: Seq<u8>, events: Seq<Event>) -> (Option<State>, Seq<u8>)
    decreases events.len(),
{
    if events.len() == 0 {
        (st, t)
    } else {
        let (s1, t1) = hash_step(st, t, events[0]);
        replay(s1, t1, events.drop_first())
    }
}

impl State {
    /// Move to the next state on `event`, committing to `verihash` what the
    /// event carries; an event that does not fit leaves `verihash` as it was.
    pub fn transition(self, event: &Event, verihash: &mut Transcript) -> (r: Result<State, Error>)
        ensures
            match step(self, *event) {
                Some((n, out)) => r == Ok::<State, Error>(n) && final(verihash)@ == old(verihash)@ + out,
                None => r == Err::<State, Error>(Error::Hashing) && final(verihash)@ == old(verihash)@,
            },
    {
        match event {
            Event::LengthDelimiter { wire_type, length } => {
                self.handle_length_delimiter(*wire_type, *length, verihash)
            },
            Event::UInt64(_) | Event::SInt64(_) => self.handle_fixed_sized_value(event, verihash),
            Event::ValueChunk { wire_type, bytes, remaining } => {
                self.handle_value_chunk(*wire_type, bytes, *remaining, verihash)
            },
            Event::Header { .. } => Err(Error::Hashing),
        }
    }

    fn handle_length_delimiter(self, wire_type: WireType, length: usize, verihash: &mut Transcript) -> (r: Result<State, Error>)
        ensures
            match step(self, Event::LengthDelimiter { wire_type, length }) {
                Some((n, out)) => r == Ok::<State, Error>(n) && final(verihash)@ == old(verihash)@ + out,
                None => r == Err::<State, Error>(Error::Hashing) && final(verihash)@ == old(verihash)@,
            },
    {
        if self != State::Initial {
            return Err(Error::Hashing);
        }
        let new_state = match wire_type {
            WireType::Bytes => State::Bytes { remaining: length },
            WireType::String => State::String { remaining: length },
            WireType::Message => State::Message { remaining: length },
            _ => {
                return Err(Error::Hashing);
            },
        };
        verihash.dynamically_sized_value(wire_type, length);
        Ok(new_state)
    }

    fn handle_fixed_sized_value(self, value: &Event, verihash: &mut Transcript) -> (r: Result<State, Error>)
        requires
            value is UInt64 || value is SInt64,
        ensures
            match step(self, *value) {
                Some((n, out)) => r == Ok::<State, Error>(n) && final(verihash)@ == old(verihash)@ + out,
                None => r == Err::<State, Error>(Error::Hashing) && final(verihash)@ == old(verihash)@,
            },
    {
        if self != State::Initial {
            return Err(Error::Hashing);
        }
        match value {
            Event::UInt64(v) => {
                let b = le_vec(*v);
                verihash.fixed_size_value(WireType::UInt64, b.as_slice());
            },
            Event::SInt64(v) => {
                let b = le_vec(*v as u64);
                verihash.fixed_size_value(WireType::SInt64, b.as_slice());
            },
            _ => {},
        }
        Ok(State::Initial)
    }

    fn handle_value_chunk(
        self,
        wire_type: WireType,
        bytes: &[u8],
        new_remaining: usize,
        verihash: &mut Transcript,
    ) -> (r: Result<State, Error>)
        ensures
            match step(self, Event::ValueChunk { wire_type, bytes, remaining: new_remaining }) {
                Some((n, out)) => r == Ok::<State, Error>(n) && final(verihash)@ == old(verihash)@ + out,
                None => r == Err::<State, Error>(Error::Hashing) && final(verihash)@ == old(verihash)@,
            },
    {
        let (expected, remaining) = match self {
            State::Bytes { remaining } => (WireType::Bytes, remaining),
            State::String { remaining } => (WireType::String, remaining),
            State::Message { remaining } => (WireType::Message, remaining),
            State::Initial => {
                return Err(Error::Hashing);
            },
        };
        if wire_type != expected || bytes.len() > remaining || remaining - bytes.len() != new_remaining {
            return Err(Error::Hashing);
        }
        let new_state = if new_remaining == 0 {
            State::Initial
        } else {
            match expected {
                WireType::Bytes => State::Bytes { remaining: new_remaining },
                WireType::String => State::String { remaining: new_remaining },
                _ => State::Message { remaining: new_remaining },
            }
        };
        verihash.input(bytes);
        Ok(new_state)
    }
}

/// Sequence hasher: builds a transcript of a sequence's elements from the
/// events produced while decoding it, checking that the events fit together.
///
/// Once an event is rejected the hasher is failed for good and rejects every
/// later event with [`Error::AlreadyFailed`].
pub struct Hasher {
    verihash: Transcript,
    state: Option<State>,
}

impl Hasher {
    /// The current state, or `None` once the hasher has failed.
    pub closed spec fn state(&self) -> Option<State> {
        self.state
    }

    /// Every byte committed to the transcript so far.
    pub closed spec fn transcript(&self) -> Seq<u8> {
        self.verihash@
    }

    /// A hasher in the `Initial` state with an empty transcript.
    pub fn new() -> (r: Self)
        ensures
            r.state() == Some(State::Initial),
            r.transcript() == Seq::<u8>::empty(),
    {
        Hasher { verihash: Transcript::new(), state: Some(State::Initial) }
    }

    /// Hash one incoming event.
    pub fn hash_event(&mut self, event: &Event) -> (r: Result<(), Error>)
        ensures
            (final(self).state(), final(self).transcript()) == hash_step(
                old(self).state(),
                old(self).transcript(),
                *event,
            ),
            match step_error(old(self).state(), *event) {
                Some(e) => r == Err::<(), Error>(e),
                None => r is Ok,
            },
    {
        match self.state {
            Some(state) => {
                self.state = None;
                let new_state = state.transition(event, &mut self.verihash)?;
                self.state = Some(new_state);
                Ok(())
            },
            None => Err(Error::AlreadyFailed),
        }
    }

    /// Hash a run of events in order, stopping at the first one rejected.
    pub fn hash_events(&mut self, events: &[Event]) -> (r: Result<(), Error>)
        ensures
            (final(self).state(), final(self).transcript()) == replay(
                old(self).state(),
                old(self).transcript(),
                events@,
            ),
            r is Ok <==> final(self).state() is Some,
            old(self).state() is None ==> r == Err::<(), Error>(Error::AlreadyFailed),
    {
        let mut i: usize = 0;
        assert(events@.subrange(0, events@.len() as int) =~= events@);
        while i < events.len()
            invariant
                0 <= i <= events@.len(),
                replay(old(self).state(), old(self).transcript(), events@) == replay(
                    self.state(),
                    self.transcript(),
                    events@.subrange(i as int, events@.len() as int),
                ),
                old(self).state() is None ==> self.state() is None,
            decreases events@.len() - i,
        {
            let ghost rest = events@.subrange(i as int, events@.len() as int);
            assert(rest.drop_first() =~= events@.subrange(i + 1, events@.len() as int));
            let r = self.hash_event(&events[i]);
            if r.is_err() {
                proof {
                    lemma_failed_stays_failed(self.transcript(), rest.drop_first());
                }
                return r;
            }
            i = i + 1;
        }
        assert(events@.subrange(i as int, events@.len() as int) =~= Seq::<Event>::empty());
        if self.state.is_none() {
            return Err(Error::AlreadyFailed);
        }
        Ok(())
    }

    /// The digest of the transcript; a failed hasher, or one in the middle of
    /// a value, has none.
    pub fn finalize(self) -> (r: Result<Vec<u8>, Error>)
        ensures
            match self.state() {
                None => r == Err::<Vec<u8>, Error>(Error::AlreadyFailed),
                Some(State::Initial) => r is Ok && r->Ok_0@ == sha256_of(self.transcript()),
                Some(_) => r == Err::<Vec<u8>, Error>(Error::Hashing),
            },
    {
        match self.state {
            None => Err(Error::AlreadyFailed),
            Some(State::Initial) => Ok(self.verihash.finalize()),
            Some(_) => Err(Error::Hashing),
        }
    }
}

impl Default for Hasher {
    fn default() -> (r: Self)
        ensures
            r.state() == Some(State::Initial),
            r.transcript() == Seq::<u8>::empty(),
    {
        Hasher::new()
    }
}

/// A failed hasher stays failed, and its transcript stays as it was, whatever
/// events follow.
pub proof fn lemma_failed_stays_failed(t: Seq<u8>, events: Seq<Event>)
    ensures
        replay(None, t, events) == (None::<State>, t),
        forall|i: int| 0 <= i < events.len() ==> step_error(None, #[trigger] events[i]) == Some(Error::AlreadyFailed),
    decreases events.len(),
{
    if events.len() > 0 {
        lemma_failed_stays_failed(t, events.drop_first());
    }
}

/// Once an event is rejected with `Hashing`, every later event is rejected
/// with `AlreadyFailed` and nothing more enters the transcript.
pub proof fn lemma_poisoning(s: State, t: Seq<u8>, bad: Event, later: Seq<Event>)
    requires
        step_error(Some(s), bad) == Some(Error::Hashing),
    ensures
        ({
            let (st, t1) = hash_step(Some(s), t, bad);
            &&& st is None
            &&& replay(st, t1, later) == (None::<State>, t)
            &&& forall|i: int| 0 <= i < later.len() ==> step_error(st, #[trigger] later[i]) == Some(Error::AlreadyFailed)
        }),
{
    lemma_failed_stays_failed(t, later);
}

/// The wire type, bytes and remaining count of a chunk event.
pub open spec fn chunk_of(e: Event) -> Option<(WireType, Seq<u8>, usize)> {
    match e {
        Event::ValueChunk { wire_type, bytes, remaining } => Some((wire_type, bytes@, remaining)),
        _ => None,
    }
}

/// Splitting a chunk of a value in two does not change what is hashed:
/// hashing the two pieces one after the other leaves the same state and
/// transcript (or the same rejection) as hashing the whole chunk, provided
/// the value is not yet complete after the first piece.
pub proof fn lemma_chunking_invariant(st: Option<State>, t: Seq<u8>, first: Event, second: Event, whole: Event)
    requires
        chunk_of(first) is Some,
        chunk_of(second) is Some,
        chunk_of(whole) is Some,
        ({
            let (w1, b1, r1) = chunk_of(first)->Some_0;
            let (w2, b2, r2) = chunk_of(second)->Some_0;
            let (w, b, r) = chunk_of(whole)->Some_0;
            &&& w1 == w && w2 == w
            &&& b == b1 + b2
            &&& r1 == r2 + b2.len()
            &&& r1 > 0
            &&& r == r2
        }),
    ensures
        ({
            let (s1, t1) = hash_step(st, t, first);
            hash_step(s1, t1, second)
        }) == hash_step(st, t, whole),
{
    let (s1, t1) = hash_step(st, t, first);
    match (first, second, whole) {
        (
            Event::ValueChunk { wire_type: w1, bytes: b1, remaining: r1 },
            Event::ValueChunk { wire_type: w2, bytes: b2, remaining: r2 },
            Event::ValueChunk { wire_type: w, bytes: b, remaining: r },
        ) => {
            if let Some(s) = st {
                if step(s, first) is Some {
                    assert(in_progress(awaiting(w, r1)) == Some((w, r1)));
                    assert(t + b@ =~= t + b1@ + b2@);
                }
            }
        },
        _ => {},
    }
}

/// Hashing the same events from the same state and transcript always ends in
/// the same state and transcript, and so with the same digest.
pub proof fn lemma_determinism(
    s1: Option<State>,
    t1: Seq<u8>,
    s2: Option<State>,
    t2: Seq<u8>,
    events1: Seq<Event>,
    events2: Seq<Event>,
)
    requires
        s1 == s2,
        t1 == t2,
        events1 == events2,
    ensures
        replay(s1, t1, events1) == replay(s2, t2, events2),
        sha256_of(replay(s1, t1, events1).1) == sha256_of(replay(s2, t2, events2).1),
{
}

} // verus!
