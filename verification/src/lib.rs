//! Message layer of the Web Application Messaging Protocol (WAMP): the wire
//! codes, the typed messages, and the codec between messages and JSON text.
//!
//! A [`BaseMessage`] is flattened to a sequence of [`Intermediate`] values,
//! the wire code first, and the sequence is written as a JSON array;
//! decoding goes the other way and checks every step. The codec between
//! messages and sequences is proved to lose nothing in either direction;
//! the JSON text itself is `serde_json`'s.

pub mod arguments;
pub mod base_message;
pub mod code;
pub mod error;
pub mod intermediate;
pub mod json;
pub mod keys;
pub mod message;
pub mod serialization;

pub use crate::arguments::Arguments;
pub use crate::base_message::{BaseMessage, Decode, Encode, MessageContent, ToIntermediate, ID, URI};
pub use crate::code::{Arity, MessageCode, MessageErrorCode};
pub use crate::error::MessagingError;
pub use crate::intermediate::{Dict, Intermediate};
pub use crate::message::Message;
pub use crate::serialization::SerializationType;
