//! The message model: what a message is, and which sequence of values stands
//! for it.
//!
//! A message is flattened to its wire code, its fixed fields in the order
//! the protocol gives them, and the values of its arguments. Reading such a
//! sequence back checks its length against the arity table, then each fixed
//! field against the type that the kind asks for at that position, then the
//! shape of what is left.

use crate::arguments::ArgumentsView;
use crate::code::{Arity, MessageCode, MessageErrorCode};
use crate::error::MessagingError;
use crate::intermediate::IntermediateView;
use vstd::prelude::*;

verus! {

/// A message, as mathematics: one variant per kind, holding the fixed
/// fields of the kind and, for the seven kinds that carry a payload, the
/// arguments. An identifier is a `u64`, a URI a string, and details or
/// options a dictionary.
#[allow(non_camel_case_types)]
pub enum Message {
    HELLO(Seq<char>, Seq<(Seq<char>, IntermediateView)>),
    WELCOME(u64, Seq<(Seq<char>, IntermediateView)>),
    ABORT(Seq<(Seq<char>, IntermediateView)>, Seq<char>),
    GOODBYE(Seq<(Seq<char>, IntermediateView)>, Seq<char>),
    ERROR(MessageErrorCode, u64, Seq<(Seq<char>, IntermediateView)>, Seq<char>, ArgumentsView),
    PUBLISH(u64, Seq<(Seq<char>, IntermediateView)>, Seq<char>, ArgumentsView),
    PUBLISHED(u64, u64),
    SUBSCRIBE(u64, Seq<(Seq<char>, IntermediateView)>, Seq<char>),
    SUBSCRIBED(u64, u64),
    UNSUBSCRIBE(u64, u64),
    UNSUBSCRIBED(u64),
    EVENT(u64, u64, Seq<(Seq<char>, IntermediateView)>, ArgumentsView),
    CALL(u64, Seq<(Seq<char>, IntermediateView)>, Seq<char>, ArgumentsView),
    RESULT(u64, Seq<(Seq<char>, IntermediateView)>, ArgumentsView),
    REGISTER(u64, Seq<(Seq<char>, IntermediateView)>, Seq<char>),
    REGISTERED(u64, u64),
    UNREGISTER(u64, u64),
    UNREGISTERED(u64),
    INVOCATION(u64, u64, Seq<(Seq<char>, IntermediateView)>, ArgumentsView),
    YIELD(u64, Seq<(Seq<char>, IntermediateView)>, ArgumentsView),
}

/// The type of a fixed field.
pub enum FieldType {
    /// An identifier: an unsigned integer.
    Id,
    /// A URI: a string.
    Uri,
    /// Details or options: a dictionary.
    Dict,
    /// The code of the request that an ERROR message answers.
    Request,
}

impl MessageCode {
    /// The type of the fixed field at `position`, counted from zero behind
    /// the code. The table is the protocol's; it says nothing of positions
    /// beyond the arity.
    pub open spec fn spec_field_type(self, position: int) -> FieldType {
        match self {
            MessageCode::HELLO => if position == 0 {
                FieldType::Uri
            } else {
                FieldType::Dict
            },
            MessageCode::WELCOME | MessageCode::RESULT | MessageCode::YIELD => if position == 0 {
                FieldType::Id
            } else {
                FieldType::Dict
            },
            MessageCode::ABORT | MessageCode::GOODBYE => if position == 0 {
                FieldType::Dict
            } else {
                FieldType::Uri
            },
            MessageCode::ERROR => if position == 0 {
                FieldType::Request
            } else if position == 1 {
                FieldType::Id
            } else if position == 2 {
                FieldType::Dict
            } else {
                FieldType::Uri
            },
            MessageCode::PUBLISH
            | MessageCode::CALL
            | MessageCode::SUBSCRIBE
            | MessageCode::REGISTER => if position == 0 {
                FieldType::Id
            } else if position == 1 {
                FieldType::Dict
            } else {
                FieldType::Uri
            },
            MessageCode::EVENT | MessageCode::INVOCATION => if position == 2 {
                FieldType::Dict
            } else {
                FieldType::Id
            },
            MessageCode::PUBLISHED
            | MessageCode::SUBSCRIBED
            | MessageCode::UNSUBSCRIBE
            | MessageCode::UNSUBSCRIBED
            | MessageCode::REGISTERED
            | MessageCode::UNREGISTER
            | MessageCode::UNREGISTERED => FieldType::Id,
        }
    }

    /// What is wrong with `value` as the fixed field at `position`, if
    /// anything. A request code that is an integer, but of no request kind,
    /// is `InvalidRequestErrorKind`; every other fault is a
    /// `FieldTypeMismatch` with the kind and the position.
    pub open spec fn spec_field_error(self, position: int, value: IntermediateView) -> Option<
        MessagingError,
    > {
        let mismatch = Some(MessagingError::FieldTypeMismatch(self, position as usize));
        match self.spec_field_type(position) {
            FieldType::Id => if value is U64 {
                None
            } else {
                mismatch
            },
            FieldType::Uri => if value is String {
                None
            } else {
                mismatch
            },
            FieldType::Dict => if value is Object {
                None
            } else {
                mismatch
            },
            FieldType::Request => match value {
                IntermediateView::U64(code) => if MessageErrorCode::spec_from_u64(code) is Some {
                    None
                } else {
                    Some(MessagingError::InvalidRequestErrorKind)
                },
                _ => mismatch,
            },
        }
    }

    /// The fault of the first fixed field that has one.
    pub open spec fn spec_fields_error(self, fields: Seq<IntermediateView>) -> Option<
        MessagingError,
    > {
        let n = self.spec_arity();
        if n > 0 && self.spec_field_error(0, fields[0]) is Some {
            self.spec_field_error(0, fields[0])
        } else if n > 1 && self.spec_field_error(1, fields[1]) is Some {
            self.spec_field_error(1, fields[1])
        } else if n > 2 && self.spec_field_error(2, fields[2]) is Some {
            self.spec_field_error(2, fields[2])
        } else if n > 3 && self.spec_field_error(3, fields[3]) is Some {
            self.spec_field_error(3, fields[3])
        } else {
            None
        }
    }
}

/// The request kind that a value names.
pub open spec fn spec_request(value: IntermediateView) -> MessageErrorCode {
    MessageErrorCode::spec_from_u64(value->U64_0)->Some_0
}

impl Message {
    /// The kind of the message.
    pub open spec fn spec_code(self) -> MessageCode {
        match self {
            Message::HELLO(..) => MessageCode::HELLO,
            Message::WELCOME(..) => MessageCode::WELCOME,
            Message::ABORT(..) => MessageCode::ABORT,
            Message::GOODBYE(..) => MessageCode::GOODBYE,
            Message::ERROR(..) => MessageCode::ERROR,
            Message::PUBLISH(..) => MessageCode::PUBLISH,
            Message::PUBLISHED(..) => MessageCode::PUBLISHED,
            Message::SUBSCRIBE(..) => MessageCode::SUBSCRIBE,
            Message::SUBSCRIBED(..) => MessageCode::SUBSCRIBED,
            Message::UNSUBSCRIBE(..) => MessageCode::UNSUBSCRIBE,
            Message::UNSUBSCRIBED(..) => MessageCode::UNSUBSCRIBED,
            Message::EVENT(..) => MessageCode::EVENT,
            Message::CALL(..) => MessageCode::CALL,
            Message::RESULT(..) => MessageCode::RESULT,
            Message::REGISTER(..) => MessageCode::REGISTER,
            Message::REGISTERED(..) => MessageCode::REGISTERED,
            Message::UNREGISTER(..) => MessageCode::UNREGISTER,
            Message::UNREGISTERED(..) => MessageCode::UNREGISTERED,
            Message::INVOCATION(..) => MessageCode::INVOCATION,
            Message::YIELD(..) => MessageCode::YIELD,
        }
    }

    /// The fixed fields of the message as values, in the protocol's order.
    pub open spec fn spec_fields(self) -> Seq<IntermediateView> {
        match self {
            Message::HELLO(realm, details) => seq![
                IntermediateView::String(realm),
                IntermediateView::Object(details),
            ],
            Message::WELCOME(session, details) => seq![
                IntermediateView::U64(session),
                IntermediateView::Object(details),
            ],
            Message::ABORT(details, reason) | Message::GOODBYE(details, reason) => seq![
                IntermediateView::Object(details),
                IntermediateView::String(reason),
            ],
            Message::ERROR(request_kind, request, details, error, _) => seq![
                IntermediateView::U64(request_kind.spec_code()),
                IntermediateView::U64(request),
                IntermediateView::Object(details),
                IntermediateView::String(error),
            ],
            Message::PUBLISH(request, options, uri, _)
            | Message::CALL(request, options, uri, _)
            | Message::SUBSCRIBE(request, options, uri)
            | Message::REGISTER(request, options, uri) => seq![
                IntermediateView::U64(request),
                IntermediateView::Object(options),
                IntermediateView::String(uri),
            ],
            Message::PUBLISHED(request, id)
            | Message::SUBSCRIBED(request, id)
            | Message::UNSUBSCRIBE(request, id)
            | Message::REGISTERED(request, id)
            | Message::UNREGISTER(request, id) => seq![
                IntermediateView::U64(request),
                IntermediateView::U64(id),
            ],
            Message::UNSUBSCRIBED(request) | Message::UNREGISTERED(request) => seq![
                IntermediateView::U64(request),
            ],
            Message::EVENT(first, second, details, _)
            | Message::INVOCATION(first, second, details, _) => seq![
                IntermediateView::U64(first),
                IntermediateView::U64(second),
                IntermediateView::Object(details),
            ],
            Message::RESULT(request, details, _) | Message::YIELD(request, details, _) => seq![
                IntermediateView::U64(request),
                IntermediateView::Object(details),
            ],
        }
    }

    /// The arguments of the message; none for a kind that takes none.
    pub open spec fn spec_arguments(self) -> ArgumentsView {
        match self {
            Message::ERROR(_, _, _, _, arguments)
            | Message::PUBLISH(_, _, _, arguments)
            | Message::EVENT(_, _, _, arguments)
            | Message::CALL(_, _, _, arguments)
            | Message::RESULT(_, _, arguments)
            | Message::INVOCATION(_, _, _, arguments)
            | Message::YIELD(_, _, arguments) => arguments,
            _ => ArgumentsView::NoArgs,
        }
    }

    /// The sequence of values that stands for the message: the code, the
    /// fixed fields, and what the arguments add.
    pub open spec fn spec_to_intermediate(self) -> Seq<IntermediateView> {
        seq![IntermediateView::U64(self.spec_code().spec_code())] + self.spec_fields()
            + self.spec_arguments().spec_flatten()
    }

    /// The message of the given kind with the given fixed fields and
    /// arguments. It reads each field as the type that the kind asks for.
    pub open spec fn spec_build(
        kind: MessageCode,
        fields: Seq<IntermediateView>,
        arguments: ArgumentsView,
    ) -> Message {
        match kind {
            MessageCode::HELLO => Message::HELLO(fields[0]->String_0, fields[1]->Object_0),
            MessageCode::WELCOME => Message::WELCOME(fields[0]->U64_0, fields[1]->Object_0),
            MessageCode::ABORT => Message::ABORT(fields[0]->Object_0, fields[1]->String_0),
            MessageCode::GOODBYE => Message::GOODBYE(fields[0]->Object_0, fields[1]->String_0),
            MessageCode::ERROR => Message::ERROR(
                spec_request(fields[0]),
                fields[1]->U64_0,
                fields[2]->Object_0,
                fields[3]->String_0,
                arguments,
            ),
            MessageCode::PUBLISH => Message::PUBLISH(
                fields[0]->U64_0,
                fields[1]->Object_0,
                fields[2]->String_0,
                arguments,
            ),
            MessageCode::PUBLISHED => Message::PUBLISHED(fields[0]->U64_0, fields[1]->U64_0),
            MessageCode::SUBSCRIBE => Message::SUBSCRIBE(
                fields[0]->U64_0,
                fields[1]->Object_0,
                fields[2]->String_0,
            ),
            MessageCode::SUBSCRIBED => Message::SUBSCRIBED(fields[0]->U64_0, fields[1]->U64_0),
            MessageCode::UNSUBSCRIBE => Message::UNSUBSCRIBE(fields[0]->U64_0, fields[1]->U64_0),
            MessageCode::UNSUBSCRIBED => Message::UNSUBSCRIBED(fields[0]->U64_0),
            MessageCode::EVENT => Message::EVENT(
                fields[0]->U64_0,
                fields[1]->U64_0,
                fields[2]->Object_0,
                arguments,
            ),
            MessageCode::CALL => Message::CALL(
                fields[0]->U64_0,
                fields[1]->Object_0,
                fields[2]->String_0,
                arguments,
            ),
            MessageCode::RESULT => Message::RESULT(
                fields[0]->U64_0,
                fields[1]->Object_0,
                arguments,
            ),
            MessageCode::REGISTER => Message::REGISTER(
                fields[0]->U64_0,
                fields[1]->Object_0,
                fields[2]->String_0,
            ),
            MessageCode::REGISTERED => Message::REGISTERED(fields[0]->U64_0, fields[1]->U64_0),
            MessageCode::UNREGISTER => Message::UNREGISTER(fields[0]->U64_0, fields[1]->U64_0),
            MessageCode::UNREGISTERED => Message::UNREGISTERED(fields[0]->U64_0),
            MessageCode::INVOCATION => Message::INVOCATION(
                fields[0]->U64_0,
                fields[1]->U64_0,
                fields[2]->Object_0,
                arguments,
            ),
            MessageCode::YIELD => Message::YIELD(fields[0]->U64_0, fields[1]->Object_0, arguments),
        }
    }

    /// The message of the given kind that fixed fields and trailing values
    /// stand for. The first fixed field with a fault decides; the trailing
    /// values are read when all fixed fields fit.
    pub open spec fn spec_typed(
        kind: MessageCode,
        fields: Seq<IntermediateView>,
        tail: Seq<IntermediateView>,
    ) -> Result<Message, MessagingError> {
        match kind.spec_fields_error(fields) {
            Some(e) => Err(e),
            None => match ArgumentsView::spec_unflatten(tail) {
                Err(e) => Err(e),
                Ok(arguments) => Ok(Message::spec_build(kind, fields, arguments)),
            },
        }
    }

    /// The message that the values behind the code of `kind` stand for:
    /// fixed fields first, then what the arguments added.
    pub open spec fn spec_from_fields(kind: MessageCode, rest: Seq<IntermediateView>) -> Result<
        Message,
        MessagingError,
    > {
        let arity = kind.spec_arity() as int;
        if rest.len() < arity {
            Err(MessagingError::ArityMismatch)
        } else if !kind.spec_accepts_arguments() && rest.len() > arity {
            Err(MessagingError::UnexpectedTrailingArguments)
        } else {
            Message::spec_typed(
                kind,
                rest.subrange(0, arity),
                rest.subrange(arity, rest.len() as int),
            )
        }
    }

    /// The kind that the first value of a sequence names, if it names one.
    pub open spec fn spec_kind(first: IntermediateView) -> Option<MessageCode> {
        match first {
            IntermediateView::U64(code) => MessageCode::spec_from_u64(code),
            _ => None,
        }
    }

    /// The message that a sequence of values stands for, or why it stands
    /// for none.
    pub open spec fn spec_from_intermediate(items: Seq<IntermediateView>) -> Result<
        Message,
        MessagingError,
    > {
        if items.len() < 2 {
            Err(MessagingError::TooShort)
        } else {
            match Message::spec_kind(items[0]) {
                None => Err(MessagingError::UnknownMessageCode),
                Some(kind) => Message::spec_from_fields(
                    kind,
                    items.subrange(1, items.len() as int),
                ),
            }
        }
    }
}

/// A message has as many fixed fields as the arity table gives its kind,
/// each of the type that the kind asks for at its position.
pub proof fn lemma_fields_fit(m: Message)
    ensures
        m.spec_fields().len() == m.spec_code().spec_arity(),
        m.spec_code().spec_fields_error(m.spec_fields()) is None,
        Message::spec_build(m.spec_code(), m.spec_fields(), m.spec_arguments()) == m,
        !m.spec_code().spec_accepts_arguments() ==> m.spec_arguments() == ArgumentsView::NoArgs,
{
    if let Message::ERROR(request_kind, _, _, _, _) = m {
        crate::code::lemma_error_code_embeds(request_kind);
    }
}

/// Reading back the sequence that stands for a message gives the message.
pub proof fn lemma_round_trip(m: Message)
    ensures
        Message::spec_from_intermediate(m.spec_to_intermediate()) == Ok::<Message, MessagingError>(
            m,
        ),
{
    let kind = m.spec_code();
    let fields = m.spec_fields();
    let tail = m.spec_arguments().spec_flatten();
    let items = m.spec_to_intermediate();
    let arity = kind.spec_arity() as int;
    lemma_fields_fit(m);
    crate::code::lemma_from_code(kind);
    crate::arguments::lemma_unflatten_flatten(m.spec_arguments());
    let rest = items.subrange(1, items.len() as int);
    assert(rest =~= fields + tail);
    assert(rest.subrange(0, arity) =~= fields);
    assert(rest.subrange(arity, rest.len() as int) =~= tail);
}

/// A sequence that stands for a message is the sequence that the message
/// is flattened to: no two sequences stand for one message.
pub proof fn lemma_from_intermediate_exact(items: Seq<IntermediateView>, m: Message)
    requires
        Message::spec_from_intermediate(items) == Ok::<Message, MessagingError>(m),
    ensures
        m.spec_to_intermediate() == items,
{
    let kind = Message::spec_kind(items[0])->Some_0;
    let arity = kind.spec_arity() as int;
    let rest = items.subrange(1, items.len() as int);
    let fields = rest.subrange(0, arity);
    let tail = rest.subrange(arity, rest.len() as int);
    let arguments = ArgumentsView::spec_unflatten(tail)->Ok_0;
    crate::code::lemma_code_of_found(items[0]->U64_0);
    crate::arguments::lemma_flatten_unflatten(tail, arguments);
    if kind == MessageCode::ERROR {
        crate::code::lemma_code_of_found(fields[0]->U64_0);
    }
    assert(m == Message::spec_build(kind, fields, arguments));
    assert(m.spec_fields() =~= fields);
    assert(m.spec_to_intermediate() =~= items);
}

} // verus!
