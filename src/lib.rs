//! Decoding of a tag-length-value message format, together with an
//! event-driven hasher that builds a structure-aware transcript of what was
//! decoded.

pub mod decoder;
pub mod error;
pub mod event;
pub mod field;
pub mod hasher;
pub mod message;
pub mod sequence;
pub mod varint;
pub mod verihash;

pub use decoder::{Decoder, Message, MAX_DEPTH};
pub use error::Error;
pub use event::Event;
pub use field::{Tag, WireType};
pub use hasher::{Hasher, State};
