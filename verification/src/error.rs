//! The ways in which encoding and decoding fail.

use crate::code::MessageCode;
use vstd::prelude::*;

verus! {

/// Why a message could not be encoded or decoded. Decoding is all or
/// nothing: with any of these, no message comes back.
#[derive(Debug, Clone, Copy, PartialEq, Eq, Structural)]
pub enum MessagingError {
    /// The payload is not well formed in its wire format, or is not a
    /// sequence of values.
    MalformedInput,
    /// The sequence has fewer than two values.
    TooShort,
    /// The first value is not the code of a message kind.
    UnknownMessageCode,
    /// Fewer values follow the code than the kind has fixed fields.
    ArityMismatch,
    /// Values follow the fixed fields of a kind that takes no arguments.
    UnexpectedTrailingArguments,
    /// More than two values follow the fixed fields, the first of them is
    /// no sequence, or the second no dictionary.
    ArgumentShapeError,
    /// The fixed field at this position, counted from zero behind the code,
    /// has another type than the kind asks for.
    FieldTypeMismatch(MessageCode, usize),
    /// The request code in an ERROR message is not that of a request kind.
    InvalidRequestErrorKind,
    /// The wire format has no form for a value of the message.
    SerializationError,
}

impl MessagingError {
    /// What all these errors are, in words.
    pub fn description(&self) -> (text: &'static str)
        ensures
            text@ == "WAMP Messaging Error"@,
    {
        "WAMP Messaging Error"
    }
}

} // verus!
