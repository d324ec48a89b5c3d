//! The wire code registry and the arity table.
//!
//! Every message kind has a fixed integer code and a fixed number of
//! positional fields. Both are lookup tables: nothing here is derived from
//! the position of a kind in the enum.

use vstd::prelude::*;

verus! {

/// The kinds of message that peers exchange.
#[allow(non_camel_case_types)]
#[derive(Debug, Clone, Copy, PartialEq, Eq, Structural)]
pub enum MessageCode {
    HELLO,
    WELCOME,
    ABORT,
    GOODBYE,
    ERROR,
    PUBLISH,
    PUBLISHED,
    SUBSCRIBE,
    SUBSCRIBED,
    UNSUBSCRIBE,
    UNSUBSCRIBED,
    EVENT,
    CALL,
    RESULT,
    REGISTER,
    REGISTERED,
    UNREGISTER,
    UNREGISTERED,
    INVOCATION,
    YIELD,
}

/// The kinds of request that an ERROR message may answer.
#[allow(non_camel_case_types)]
#[derive(Debug, Clone, Copy, PartialEq, Eq, Structural)]
pub enum MessageErrorCode {
    SUBSCRIBE,
    UNSUBSCRIBE,
    PUBLISH,
    CALL,
    REGISTER,
    UNREGISTER,
    INVOCATION,
}

/// The number of positional fields of a value, not counting a wire code in
/// front of them nor optional arguments behind them.
pub trait Arity {
    spec fn spec_arity(&self) -> nat;

    fn arity(&self) -> (n: usize)
        ensures
            n == self.spec_arity(),
    ;
}

impl MessageCode {
    /// The integer that stands for this kind on the wire.
    pub open spec fn spec_code(self) -> u64 {
        match self {
            MessageCode::HELLO => 1,
            MessageCode::WELCOME => 2,
            MessageCode::ABORT => 3,
            MessageCode::GOODBYE => 6,
            MessageCode::ERROR => 8,
            MessageCode::PUBLISH => 16,
            MessageCode::PUBLISHED => 17,
            MessageCode::SUBSCRIBE => 32,
            MessageCode::SUBSCRIBED => 33,
            MessageCode::UNSUBSCRIBE => 34,
            MessageCode::UNSUBSCRIBED => 35,
            MessageCode::EVENT => 36,
            MessageCode::CALL => 48,
            MessageCode::RESULT => 50,
            MessageCode::REGISTER => 64,
            MessageCode::REGISTERED => 65,
            MessageCode::UNREGISTER => 66,
            MessageCode::UNREGISTERED => 67,
            MessageCode::INVOCATION => 68,
            MessageCode::YIELD => 70,
        }
    }

    /// The kind that a wire code stands for, if any.
    pub open spec fn spec_from_u64(code: u64) -> Option<MessageCode> {
        if code == 1 {
            Some(MessageCode::HELLO)
        } else if code == 2 {
            Some(MessageCode::WELCOME)
        } else if code == 3 {
            Some(MessageCode::ABORT)
        } else if code == 6 {
            Some(MessageCode::GOODBYE)
        } else if code == 8 {
            Some(MessageCode::ERROR)
        } else if code == 16 {
            Some(MessageCode::PUBLISH)
        } else if code == 17 {
            Some(MessageCode::PUBLISHED)
        } else if code == 32 {
            Some(MessageCode::SUBSCRIBE)
        } else if code == 33 {
            Some(MessageCode::SUBSCRIBED)
        } else if code == 34 {
            Some(MessageCode::UNSUBSCRIBE)
        } else if code == 35 {
            Some(MessageCode::UNSUBSCRIBED)
        } else if code == 36 {
            Some(MessageCode::EVENT)
        } else if code == 48 {
            Some(MessageCode::CALL)
        } else if code == 50 {
            Some(MessageCode::RESULT)
        } else if code == 64 {
            Some(MessageCode::REGISTER)
        } else if code == 65 {
            Some(MessageCode::REGISTERED)
        } else if code == 66 {
            Some(MessageCode::UNREGISTER)
        } else if code == 67 {
            Some(MessageCode::UNREGISTERED)
        } else if code == 68 {
            Some(MessageCode::INVOCATION)
        } else if code == 70 {
            Some(MessageCode::YIELD)
        } else {
            None
        }
    }

    /// Whether messages of this kind end in optional arguments.
    pub open spec fn spec_accepts_arguments(self) -> bool {
        self == MessageCode::ERROR || self == MessageCode::PUBLISH || self == MessageCode::EVENT
            || self == MessageCode::CALL || self == MessageCode::RESULT || self
            == MessageCode::INVOCATION || self == MessageCode::YIELD
    }

    /// This kind as the request kind of an ERROR message, if it is one.
    pub open spec fn spec_error_code(self) -> Option<MessageErrorCode> {
        match self {
            MessageCode::SUBSCRIBE => Some(MessageErrorCode::SUBSCRIBE),
            MessageCode::UNSUBSCRIBE => Some(MessageErrorCode::UNSUBSCRIBE),
            MessageCode::PUBLISH => Some(MessageErrorCode::PUBLISH),
            MessageCode::CALL => Some(MessageErrorCode::CALL),
            MessageCode::REGISTER => Some(MessageErrorCode::REGISTER),
            MessageCode::UNREGISTER => Some(MessageErrorCode::UNREGISTER),
            MessageCode::INVOCATION => Some(MessageErrorCode::INVOCATION),
            _ => None,
        }
    }

    /// The wire code of this kind.
    pub fn code(self) -> (c: u64)
        ensures
            c == self.spec_code(),
    {
        match self {
            MessageCode::HELLO => 1,
            MessageCode::WELCOME => 2,
            MessageCode::ABORT => 3,
            MessageCode::GOODBYE => 6,
            MessageCode::ERROR => 8,
            MessageCode::PUBLISH => 16,
            MessageCode::PUBLISHED => 17,
            MessageCode::SUBSCRIBE => 32,
            MessageCode::SUBSCRIBED => 33,
            MessageCode::UNSUBSCRIBE => 34,
            MessageCode::UNSUBSCRIBED => 35,
            MessageCode::EVENT => 36,
            MessageCode::CALL => 48,
            MessageCode::RESULT => 50,
            MessageCode::REGISTER => 64,
            MessageCode::REGISTERED => 65,
            MessageCode::UNREGISTER => 66,
            MessageCode::UNREGISTERED => 67,
            MessageCode::INVOCATION => 68,
            MessageCode::YIELD => 70,
        }
    }

    /// Looks a wire code up. `None` for a code that no kind has.
    pub fn from_u64(code: u64) -> (kind: Option<MessageCode>)
        ensures
            kind == Self::spec_from_u64(code),
    {
        match code {
            1 => Some(MessageCode::HELLO),
            2 => Some(MessageCode::WELCOME),
            3 => Some(MessageCode::ABORT),
            6 => Some(MessageCode::GOODBYE),
            8 => Some(MessageCode::ERROR),
            16 => Some(MessageCode::PUBLISH),
            17 => Some(MessageCode::PUBLISHED),
            32 => Some(MessageCode::SUBSCRIBE),
            33 => Some(MessageCode::SUBSCRIBED),
            34 => Some(MessageCode::UNSUBSCRIBE),
            35 => Some(MessageCode::UNSUBSCRIBED),
            36 => Some(MessageCode::EVENT),
            48 => Some(MessageCode::CALL),
            50 => Some(MessageCode::RESULT),
            64 => Some(MessageCode::REGISTER),
            65 => Some(MessageCode::REGISTERED),
            66 => Some(MessageCode::UNREGISTER),
            67 => Some(MessageCode::UNREGISTERED),
            68 => Some(MessageCode::INVOCATION),
            70 => Some(MessageCode::YIELD),
            _ => None,
        }
    }

    /// Whether messages of this kind end in optional arguments.
    pub fn accepts_arguments(self) -> (b: bool)
        ensures
            b == self.spec_accepts_arguments(),
    {
        match self {
            MessageCode::ERROR
            | MessageCode::PUBLISH
            | MessageCode::EVENT
            | MessageCode::CALL
            | MessageCode::RESULT
            | MessageCode::INVOCATION
            | MessageCode::YIELD => true,
            _ => false,
        }
    }

    /// This kind as the request kind of an ERROR message. `None` for a kind
    /// that an ERROR message may not answer.
    pub fn error_code(self) -> (e: Option<MessageErrorCode>)
        ensures
            e == self.spec_error_code(),
    {
        match self {
            MessageCode::SUBSCRIBE => Some(MessageErrorCode::SUBSCRIBE),
            MessageCode::UNSUBSCRIBE => Some(MessageErrorCode::UNSUBSCRIBE),
            MessageCode::PUBLISH => Some(MessageErrorCode::PUBLISH),
            MessageCode::CALL => Some(MessageErrorCode::CALL),
            MessageCode::REGISTER => Some(MessageErrorCode::REGISTER),
            MessageCode::UNREGISTER => Some(MessageErrorCode::UNREGISTER),
            MessageCode::INVOCATION => Some(MessageErrorCode::INVOCATION),
            _ => None,
        }
    }

    /// Whether an ERROR message may answer a request of this kind.
    pub fn is_request(self) -> (b: bool)
        ensures
            b == self.spec_error_code().is_some(),
    {
        self.error_code().is_some()
    }
}

impl Arity for MessageCode {
    /// The number of fixed fields of a message of this kind.
    open spec fn spec_arity(&self) -> nat {
        match self {
            MessageCode::HELLO => 2,
            MessageCode::WELCOME => 2,
            MessageCode::ABORT => 2,
            MessageCode::GOODBYE => 2,
            MessageCode::ERROR => 4,
            MessageCode::PUBLISH => 3,
            MessageCode::PUBLISHED => 2,
            MessageCode::SUBSCRIBE => 3,
            MessageCode::SUBSCRIBED => 2,
            MessageCode::UNSUBSCRIBE => 2,
            MessageCode::UNSUBSCRIBED => 1,
            MessageCode::EVENT => 3,
            MessageCode::CALL => 3,
            MessageCode::RESULT => 2,
            MessageCode::REGISTER => 3,
            MessageCode::REGISTERED => 2,
            MessageCode::UNREGISTER => 2,
            MessageCode::UNREGISTERED => 1,
            MessageCode::INVOCATION => 3,
            MessageCode::YIELD => 2,
        }
    }

    fn arity(&self) -> (n: usize) {
        match self {
            MessageCode::UNSUBSCRIBED | MessageCode::UNREGISTERED => 1,
            MessageCode::ERROR => 4,
            MessageCode::PUBLISH
            | MessageCode::SUBSCRIBE
            | MessageCode::EVENT
            | MessageCode::CALL
            | MessageCode::REGISTER
            | MessageCode::INVOCATION => 3,
            _ => 2,
        }
    }
}

impl MessageErrorCode {
    /// The message kind that this request kind is.
    pub open spec fn spec_message_code(self) -> MessageCode {
        match self {
            MessageErrorCode::SUBSCRIBE => MessageCode::SUBSCRIBE,
            MessageErrorCode::UNSUBSCRIBE => MessageCode::UNSUBSCRIBE,
            MessageErrorCode::PUBLISH => MessageCode::PUBLISH,
            MessageErrorCode::CALL => MessageCode::CALL,
            MessageErrorCode::REGISTER => MessageCode::REGISTER,
            MessageErrorCode::UNREGISTER => MessageCode::UNREGISTER,
            MessageErrorCode::INVOCATION => MessageCode::INVOCATION,
        }
    }

    /// The integer that stands for this request kind on the wire.
    pub open spec fn spec_code(self) -> u64 {
        self.spec_message_code().spec_code()
    }

    /// The request kind that a wire code stands for, if any.
    pub open spec fn spec_from_u64(code: u64) -> Option<MessageErrorCode> {
        match MessageCode::spec_from_u64(code) {
            Some(kind) => kind.spec_error_code(),
            None => None,
        }
    }

    /// The message kind that this request kind is.
    pub fn message_code(self) -> (kind: MessageCode)
        ensures
            kind == self.spec_message_code(),
    {
        match self {
            MessageErrorCode::SUBSCRIBE => MessageCode::SUBSCRIBE,
            MessageErrorCode::UNSUBSCRIBE => MessageCode::UNSUBSCRIBE,
            MessageErrorCode::PUBLISH => MessageCode::PUBLISH,
            MessageErrorCode::CALL => MessageCode::CALL,
            MessageErrorCode::REGISTER => MessageCode::REGISTER,
            MessageErrorCode::UNREGISTER => MessageCode::UNREGISTER,
            MessageErrorCode::INVOCATION => MessageCode::INVOCATION,
        }
    }

    /// The wire code of this request kind: that of the message kind.
    pub fn code(self) -> (c: u64)
        ensures
            c == self.spec_code(),
    {
        self.message_code().code()
    }

    /// Looks a wire code up. `None` for a code that no request kind has,
    /// also where it is the code of another message kind.
    pub fn from_u64(code: u64) -> (kind: Option<MessageErrorCode>)
        ensures
            kind == Self::spec_from_u64(code),
    {
        match MessageCode::from_u64(code) {
            Some(kind) => kind.error_code(),
            None => None,
        }
    }
}

/// No two kinds share a wire code.
pub proof fn lemma_code_injective(a: MessageCode, b: MessageCode)
    requires
        a.spec_code() == b.spec_code(),
    ensures
        a == b,
{
}

/// Looking up the code of a kind gives the kind back.
pub proof fn lemma_from_code(kind: MessageCode)
    ensures
        MessageCode::spec_from_u64(kind.spec_code()) == Some(kind),
{
}

/// A code that is looked up with success is the code of what was found.
pub proof fn lemma_code_of_found(code: u64)
    ensures
        MessageCode::spec_from_u64(code) matches Some(kind) ==> kind.spec_code() == code,
{
}

/// Every kind has between one and four fixed fields, as many as the
/// protocol gives it, and seven kinds end in optional arguments: ERROR,
/// PUBLISH, EVENT, CALL, RESULT, INVOCATION and YIELD.
pub proof fn lemma_arity_table(kind: MessageCode)
    ensures
        1 <= kind.spec_arity() <= 4,
        kind.spec_arity() == 1 <==> kind == MessageCode::UNSUBSCRIBED || kind
            == MessageCode::UNREGISTERED,
        kind.spec_arity() == 4 <==> kind == MessageCode::ERROR,
        kind.spec_arity() == 3 <==> kind == MessageCode::PUBLISH || kind == MessageCode::SUBSCRIBE
            || kind == MessageCode::EVENT || kind == MessageCode::CALL || kind
            == MessageCode::REGISTER || kind == MessageCode::INVOCATION,
        kind.spec_accepts_arguments() <==> kind == MessageCode::ERROR || kind
            == MessageCode::PUBLISH || kind == MessageCode::EVENT || kind == MessageCode::CALL
            || kind == MessageCode::RESULT || kind == MessageCode::INVOCATION || kind
            == MessageCode::YIELD,
{
}

/// The request kinds are the message kinds of the same name, with their codes.
pub proof fn lemma_error_code_embeds(kind: MessageErrorCode)
    ensures
        kind.spec_message_code().spec_error_code() == Some(kind),
        MessageErrorCode::spec_from_u64(kind.spec_code()) == Some(kind),
{
}

} // verus!
