//! The messages that a program holds, and their passage to and from a
//! sequence of intermediate values.

use crate::arguments::{Arguments, ArgumentsView};
use crate::code::{Arity, MessageCode, MessageErrorCode};
use crate::error::MessagingError;
use crate::json::{from_str, json_text, json_value, to_string};
use crate::message::{FieldType, Message};
use crate::intermediate::{views_of, Dict, Intermediate, IntermediateView};
use vstd::prelude::*;

verus! {

/// A session, request, subscription, publication or registration
/// identifier.
pub type ID = u64;

/// A URI in the protocol's dotted form. The codec does not look into it.
pub type URI = String;

/// The content of a message: its fixed fields, and its arguments where the
/// kind has any.
#[derive(Debug, PartialEq)]
pub struct MessageContent<T, A = ()> {
    pub message: T,
    pub arguments: A,
}

/// A message: one variant per kind, each with the fixed fields of the kind.
#[allow(non_camel_case_types)]
#[derive(Debug, PartialEq)]
pub enum BaseMessage {
    HELLO(MessageContent<(URI, Dict)>),
    WELCOME(MessageContent<(ID, Dict)>),
    ABORT(MessageContent<(Dict, URI)>),
    GOODBYE(MessageContent<(Dict, URI)>),
    ERROR(MessageContent<(MessageErrorCode, ID, Dict, URI), Arguments>),
    PUBLISH(MessageContent<(ID, Dict, URI), Arguments>),
    PUBLISHED(MessageContent<(ID, ID)>),
    SUBSCRIBE(MessageContent<(ID, Dict, URI)>),
    SUBSCRIBED(MessageContent<(ID, ID)>),
    UNSUBSCRIBE(MessageContent<(ID, ID)>),
    UNSUBSCRIBED(MessageContent<(ID,)>),
    EVENT(MessageContent<(ID, ID, Dict), Arguments>),
    CALL(MessageContent<(ID, Dict, URI), Arguments>),
    RESULT(MessageContent<(ID, Dict), Arguments>),
    REGISTER(MessageContent<(ID, Dict, URI)>),
    REGISTERED(MessageContent<(ID, ID)>),
    UNREGISTER(MessageContent<(ID, ID)>),
    UNREGISTERED(MessageContent<(ID,)>),
    INVOCATION(MessageContent<(ID, ID, Dict), Arguments>),
    YIELD(MessageContent<(ID, Dict), Arguments>),
}

/// Turns a value into the ordered sequence of intermediate values that
/// stands for it.
pub trait ToIntermediate<T, E>: Sized {
    fn to_intermediate(self) -> Result<Vec<T>, E>;
}

/// Encodes a message to serialized data, such as a string or a binary blob.
pub trait Encode<D, E>: Sized {
    fn encode(self) -> Result<D, E>;
}

/// Decodes serialized data, such as a string or a binary blob, to a message.
pub trait Decode<D, E>: Sized {
    fn decode(serialized_data: D) -> Result<Self, E>;
}

impl<T> MessageContent<T, ()> {
    /// The content of a message without arguments.
    pub fn new(message: T) -> (content: Self)
        ensures
            content.message == message,
    {
        MessageContent { message, arguments: () }
    }
}

impl<T> MessageContent<T, Arguments> {
    /// The content of a message that ends in arguments.
    pub fn with_arguments(message: T, arguments: Arguments) -> (content: Self)
        ensures
            content.message == message,
            content.arguments == arguments,
    {
        MessageContent { message, arguments }
    }
}

impl View for BaseMessage {
    type V = Message;

    open spec fn view(&self) -> Message {
        match self {
            BaseMessage::HELLO(c) => Message::HELLO(c.message.0@, c.message.1@),
            BaseMessage::WELCOME(c) => Message::WELCOME(c.message.0, c.message.1@),
            BaseMessage::ABORT(c) => Message::ABORT(c.message.0@, c.message.1@),
            BaseMessage::GOODBYE(c) => Message::GOODBYE(c.message.0@, c.message.1@),
            BaseMessage::ERROR(c) => Message::ERROR(
                c.message.0,
                c.message.1,
                c.message.2@,
                c.message.3@,
                c.arguments@,
            ),
            BaseMessage::PUBLISH(c) => Message::PUBLISH(
                c.message.0,
                c.message.1@,
                c.message.2@,
                c.arguments@,
            ),
            BaseMessage::PUBLISHED(c) => Message::PUBLISHED(c.message.0, c.message.1),
            BaseMessage::SUBSCRIBE(c) => Message::SUBSCRIBE(
                c.message.0,
                c.message.1@,
                c.message.2@,
            ),
            BaseMessage::SUBSCRIBED(c) => Message::SUBSCRIBED(c.message.0, c.message.1),
            BaseMessage::UNSUBSCRIBE(c) => Message::UNSUBSCRIBE(c.message.0, c.message.1),
            BaseMessage::UNSUBSCRIBED(c) => Message::UNSUBSCRIBED(c.message.0),
            BaseMessage::EVENT(c) => Message::EVENT(
                c.message.0,
                c.message.1,
                c.message.2@,
                c.arguments@,
            ),
            BaseMessage::CALL(c) => Message::CALL(
                c.message.0,
                c.message.1@,
                c.message.2@,
                c.arguments@,
            ),
            BaseMessage::RESULT(c) => Message::RESULT(c.message.0, c.message.1@, c.arguments@),
            BaseMessage::REGISTER(c) => Message::REGISTER(
                c.message.0,
                c.message.1@,
                c.message.2@,
            ),
            BaseMessage::REGISTERED(c) => Message::REGISTERED(c.message.0, c.message.1),
            BaseMessage::UNREGISTER(c) => Message::UNREGISTER(c.message.0, c.message.1),
            BaseMessage::UNREGISTERED(c) => Message::UNREGISTERED(c.message.0),
            BaseMessage::INVOCATION(c) => Message::INVOCATION(
                c.message.0,
                c.message.1,
                c.message.2@,
                c.arguments@,
            ),
            BaseMessage::YIELD(c) => Message::YIELD(c.message.0, c.message.1@, c.arguments@),
        }
    }
}

impl<T: Clone, A: Clone> Clone for MessageContent<T, A> {
    /// A copy of the fixed fields and of the arguments, each as its own
    /// `clone` makes it.
    fn clone(&self) -> (copy: Self)
        ensures
            cloned(self.message, copy.message),
            cloned(self.arguments, copy.arguments),
    {
        MessageContent { message: self.message.clone(), arguments: self.arguments.clone() }
    }
}

impl Clone for BaseMessage {
    /// A copy of the message and of all that it holds.
    fn clone(&self) -> (copy: BaseMessage)
        ensures
            copy@ == self@,
    {
        match self {
            BaseMessage::HELLO(c) => BaseMessage::HELLO(
                MessageContent::new((c.message.0.clone(), c.message.1.clone())),
            ),
            BaseMessage::WELCOME(c) => BaseMessage::WELCOME(
                MessageContent::new((c.message.0, c.message.1.clone())),
            ),
            BaseMessage::ABORT(c) => BaseMessage::ABORT(
                MessageContent::new((c.message.0.clone(), c.message.1.clone())),
            ),
            BaseMessage::GOODBYE(c) => BaseMessage::GOODBYE(
                MessageContent::new((c.message.0.clone(), c.message.1.clone())),
            ),
            BaseMessage::ERROR(c) => BaseMessage::ERROR(
                MessageContent::with_arguments(
                    (c.message.0, c.message.1, c.message.2.clone(), c.message.3.clone()),
                    c.arguments.clone(),
                ),
            ),
            BaseMessage::PUBLISH(c) => BaseMessage::PUBLISH(
                MessageContent::with_arguments(
                    (c.message.0, c.message.1.clone(), c.message.2.clone()),
                    c.arguments.clone(),
                ),
            ),
            BaseMessage::PUBLISHED(c) => BaseMessage::PUBLISHED(
                MessageContent::new((c.message.0, c.message.1)),
            ),
            BaseMessage::SUBSCRIBE(c) => BaseMessage::SUBSCRIBE(
                MessageContent::new((c.message.0, c.message.1.clone(), c.message.2.clone())),
            ),
            BaseMessage::SUBSCRIBED(c) => BaseMessage::SUBSCRIBED(
                MessageContent::new((c.message.0, c.message.1)),
            ),
            BaseMessage::UNSUBSCRIBE(c) => BaseMessage::UNSUBSCRIBE(
                MessageContent::new((c.message.0, c.message.1)),
            ),
            BaseMessage::UNSUBSCRIBED(c) => BaseMessage::UNSUBSCRIBED(
                MessageContent::new((c.message.0,)),
            ),
            BaseMessage::EVENT(c) => BaseMessage::EVENT(
                MessageContent::with_arguments(
                    (c.message.0, c.message.1, c.message.2.clone()),
                    c.arguments.clone(),
                ),
            ),
            BaseMessage::CALL(c) => BaseMessage::CALL(
                MessageContent::with_arguments(
                    (c.message.0, c.message.1.clone(), c.message.2.clone()),
                    c.arguments.clone(),
                ),
            ),
            BaseMessage::RESULT(c) => BaseMessage::RESULT(
                MessageContent::with_arguments(
                    (c.message.0, c.message.1.clone()),
                    c.arguments.clone(),
                ),
            ),
            BaseMessage::REGISTER(c) => BaseMessage::REGISTER(
                MessageContent::new((c.message.0, c.message.1.clone(), c.message.2.clone())),
            ),
            BaseMessage::REGISTERED(c) => BaseMessage::REGISTERED(
                MessageContent::new((c.message.0, c.message.1)),
            ),
            BaseMessage::UNREGISTER(c) => BaseMessage::UNREGISTER(
                MessageContent::new((c.message.0, c.message.1)),
            ),
            BaseMessage::UNREGISTERED(c) => BaseMessage::UNREGISTERED(
                MessageContent::new((c.message.0,)),
            ),
            BaseMessage::INVOCATION(c) => BaseMessage::INVOCATION(
                MessageContent::with_arguments(
                    (c.message.0, c.message.1, c.message.2.clone()),
                    c.arguments.clone(),
                ),
            ),
            BaseMessage::YIELD(c) => BaseMessage::YIELD(
                MessageContent::with_arguments(
                    (c.message.0, c.message.1.clone()),
                    c.arguments.clone(),
                ),
            ),
        }
    }
}

impl BaseMessage {
    /// Returns the kind of the message and the number of its fixed fields:
    /// what stands between the wire code and the optional arguments.
    pub fn message_info(&self) -> (info: (MessageCode, usize))
        ensures
            info.0 == self@.spec_code(),
            info.1 == info.0.spec_arity(),
            info.1 == self@.spec_fields().len(),
    {
        let kind = match self {
            BaseMessage::HELLO(_) => MessageCode::HELLO,
            BaseMessage::WELCOME(_) => MessageCode::WELCOME,
            BaseMessage::ABORT(_) => MessageCode::ABORT,
            BaseMessage::GOODBYE(_) => MessageCode::GOODBYE,
            BaseMessage::ERROR(_) => MessageCode::ERROR,
            BaseMessage::PUBLISH(_) => MessageCode::PUBLISH,
            BaseMessage::PUBLISHED(_) => MessageCode::PUBLISHED,
            BaseMessage::SUBSCRIBE(_) => MessageCode::SUBSCRIBE,
            BaseMessage::SUBSCRIBED(_) => MessageCode::SUBSCRIBED,
            BaseMessage::UNSUBSCRIBE(_) => MessageCode::UNSUBSCRIBE,
            BaseMessage::UNSUBSCRIBED(_) => MessageCode::UNSUBSCRIBED,
            BaseMessage::EVENT(_) => MessageCode::EVENT,
            BaseMessage::CALL(_) => MessageCode::CALL,
            BaseMessage::RESULT(_) => MessageCode::RESULT,
            BaseMessage::REGISTER(_) => MessageCode::REGISTER,
            BaseMessage::REGISTERED(_) => MessageCode::REGISTERED,
            BaseMessage::UNREGISTER(_) => MessageCode::UNREGISTER,
            BaseMessage::UNREGISTERED(_) => MessageCode::UNREGISTERED,
            BaseMessage::INVOCATION(_) => MessageCode::INVOCATION,
            BaseMessage::YIELD(_) => MessageCode::YIELD,
        };
        (kind, kind.arity())
    }
}

/// The result of decoding, with the message as mathematics.
pub open spec fn decoded(r: Result<BaseMessage, MessagingError>) -> Result<
    Message,
    MessagingError,
> {
    match r {
        Ok(m) => Ok(m@),
        Err(e) => Err(e),
    }
}

fn one(a: Intermediate) -> (fields: Vec<Intermediate>)
    ensures
        views_of(fields@) == seq![a@],
{
    let mut fields: Vec<Intermediate> = Vec::new();
    fields.push(a);
    fields
}

fn two(a: Intermediate, b: Intermediate) -> (fields: Vec<Intermediate>)
    ensures
        views_of(fields@) == seq![a@, b@],
{
    let mut fields: Vec<Intermediate> = Vec::new();
    fields.push(a);
    fields.push(b);
    fields
}

fn three(a: Intermediate, b: Intermediate, c: Intermediate) -> (fields: Vec<Intermediate>)
    ensures
        views_of(fields@) == seq![a@, b@, c@],
{
    let mut fields: Vec<Intermediate> = Vec::new();
    fields.push(a);
    fields.push(b);
    fields.push(c);
    fields
}

fn four(a: Intermediate, b: Intermediate, c: Intermediate, d: Intermediate) -> (fields: Vec<
    Intermediate,
>)
    ensures
        views_of(fields@) == seq![a@, b@, c@, d@],
{
    let mut fields: Vec<Intermediate> = Vec::new();
    fields.push(a);
    fields.push(b);
    fields.push(c);
    fields.push(d);
    fields
}

impl ToIntermediate<Intermediate, MessagingError> for MessageContent<
    Vec<Intermediate>,
    Vec<Intermediate>,
> {
    /// The fixed fields, then the values of the arguments. Never fails.
    fn to_intermediate(self) -> (r: Result<Vec<Intermediate>, MessagingError>)
        ensures
            r matches Ok(items) && views_of(items@) == views_of(self.message@) + views_of(
                self.arguments@,
            ),
    {
        let mut items = self.message;
        let mut tail = self.arguments;
        items.append(&mut tail);
        assert(views_of(items@) =~= views_of(self.message@) + views_of(
            self.arguments@,
        ));
        Ok(items)
    }
}

impl ToIntermediate<Intermediate, MessagingError> for BaseMessage {
    /// The wire code, the fixed fields, and the values of the arguments.
    /// Never fails.
    fn to_intermediate(self) -> (r: Result<Vec<Intermediate>, MessagingError>)
        ensures
            r matches Ok(items) && views_of(items@) == self@.spec_to_intermediate(),
    {
        let code = Intermediate::U64(self.message_info().0.code());
        let mut items = match self.into_content().to_intermediate() {
            Ok(items) => items,
            Err(_) => Vec::new(),
        };
        let ghost behind = views_of(items@);
        items.insert(0, code);
        assert(views_of(items@) =~= seq![code@] + behind);
        Ok(items)
    }
}

impl BaseMessage {
    /// The fixed fields and the arguments of the message as values, in the
    /// protocol's order.
    pub fn into_content(self) -> (content: MessageContent<Vec<Intermediate>, Vec<Intermediate>>)
        ensures
            views_of(content.message@) == self@.spec_fields(),
            views_of(content.arguments@) == self@.spec_arguments().spec_flatten(),
    {
        match self {
            BaseMessage::HELLO(c) => MessageContent {
                message: two(Intermediate::String(c.message.0), Intermediate::Object(c.message.1)),
                arguments: Arguments::NoArgs.flatten(),
            },
            BaseMessage::WELCOME(c) => MessageContent {
                message: two(Intermediate::U64(c.message.0), Intermediate::Object(c.message.1)),
                arguments: Arguments::NoArgs.flatten(),
            },
            BaseMessage::ABORT(c) | BaseMessage::GOODBYE(c) => MessageContent {
                message: two(Intermediate::Object(c.message.0), Intermediate::String(c.message.1)),
                arguments: Arguments::NoArgs.flatten(),
            },
            BaseMessage::ERROR(c) => MessageContent {
                message: four(
                    Intermediate::U64(c.message.0.code()),
                    Intermediate::U64(c.message.1),
                    Intermediate::Object(c.message.2),
                    Intermediate::String(c.message.3),
                ),
                arguments: c.arguments.flatten(),
            },
            BaseMessage::PUBLISH(c) | BaseMessage::CALL(c) => MessageContent {
                message: three(
                    Intermediate::U64(c.message.0),
                    Intermediate::Object(c.message.1),
                    Intermediate::String(c.message.2),
                ),
                arguments: c.arguments.flatten(),
            },
            BaseMessage::SUBSCRIBE(c) | BaseMessage::REGISTER(c) => MessageContent {
                message: three(
                    Intermediate::U64(c.message.0),
                    Intermediate::Object(c.message.1),
                    Intermediate::String(c.message.2),
                ),
                arguments: Arguments::NoArgs.flatten(),
            },
            BaseMessage::PUBLISHED(c)
            | BaseMessage::SUBSCRIBED(c)
            | BaseMessage::UNSUBSCRIBE(c)
            | BaseMessage::REGISTERED(c)
            | BaseMessage::UNREGISTER(c) => MessageContent {
                message: two(Intermediate::U64(c.message.0), Intermediate::U64(c.message.1)),
                arguments: Arguments::NoArgs.flatten(),
            },
            BaseMessage::UNSUBSCRIBED(c) | BaseMessage::UNREGISTERED(c) => MessageContent {
                message: one(Intermediate::U64(c.message.0)),
                arguments: Arguments::NoArgs.flatten(),
            },
            BaseMessage::EVENT(c) | BaseMessage::INVOCATION(c) => MessageContent {
                message: three(
                    Intermediate::U64(c.message.0),
                    Intermediate::U64(c.message.1),
                    Intermediate::Object(c.message.2),
                ),
                arguments: c.arguments.flatten(),
            },
            BaseMessage::RESULT(c) | BaseMessage::YIELD(c) => MessageContent {
                message: two(Intermediate::U64(c.message.0), Intermediate::Object(c.message.1)),
                arguments: c.arguments.flatten(),
            },
        }
    }
}

fn read_id(field: Option<Intermediate>, kind: MessageCode, position: usize) -> (r: Result<
    ID,
    MessagingError,
>)
    requires
        field is Some,
        kind.spec_field_type(position as int) is Id,
    ensures
        match r {
            Ok(id) => field->Some_0@ == IntermediateView::U64(id) && kind.spec_field_error(
                position as int,
                field->Some_0@,
            ) is None,
            Err(e) => kind.spec_field_error(position as int, field->Some_0@) == Some(e),
        },
{
    match field {
        Some(Intermediate::U64(id)) => Ok(id),
        _ => Err(MessagingError::FieldTypeMismatch(kind, position)),
    }
}

fn read_uri(field: Option<Intermediate>, kind: MessageCode, position: usize) -> (r: Result<
    URI,
    MessagingError,
>)
    requires
        field is Some,
        kind.spec_field_type(position as int) is Uri,
    ensures
        match r {
            Ok(uri) => field->Some_0@ == IntermediateView::String(uri@) && kind.spec_field_error(
                position as int,
                field->Some_0@,
            ) is None,
            Err(e) => kind.spec_field_error(position as int, field->Some_0@) == Some(e),
        },
{
    match field {
        Some(Intermediate::String(uri)) => Ok(uri),
        _ => Err(MessagingError::FieldTypeMismatch(kind, position)),
    }
}

fn read_dict(field: Option<Intermediate>, kind: MessageCode, position: usize) -> (r: Result<
    Dict,
    MessagingError,
>)
    requires
        field is Some,
        kind.spec_field_type(position as int) is Dict,
    ensures
        match r {
            Ok(dict) => field->Some_0@ == IntermediateView::Object(dict@) && kind.spec_field_error(
                position as int,
                field->Some_0@,
            ) is None,
            Err(e) => kind.spec_field_error(position as int, field->Some_0@) == Some(e),
        },
{
    match field {
        Some(Intermediate::Object(dict)) => Ok(dict),
        _ => Err(MessagingError::FieldTypeMismatch(kind, position)),
    }
}

fn read_request(field: Option<Intermediate>, kind: MessageCode, position: usize) -> (r: Result<
    MessageErrorCode,
    MessagingError,
>)
    requires
        field is Some,
        kind.spec_field_type(position as int) is Request,
    ensures
        match r {
            Ok(request) => crate::message::spec_request(field->Some_0@) == request
                && kind.spec_field_error(position as int, field->Some_0@) is None,
            Err(e) => kind.spec_field_error(position as int, field->Some_0@) == Some(e),
        },
{
    match field {
        Some(Intermediate::U64(code)) => match MessageErrorCode::from_u64(code) {
            Some(request) => Ok(request),
            None => Err(MessagingError::InvalidRequestErrorKind),
        },
        _ => Err(MessagingError::FieldTypeMismatch(kind, position)),
    }
}

/// Reads the fixed fields as the types that `kind` asks for, then the
/// trailing values as arguments.
fn typed(kind: MessageCode, fields: Vec<Intermediate>, tail: Vec<Intermediate>) -> (r: Result<
    BaseMessage,
    MessagingError,
>)
    requires
        fields.len() == kind.spec_arity(),
        !kind.spec_accepts_arguments() ==> tail.len() == 0,
    ensures
        decoded(r) == Message::spec_typed(kind, views_of(fields@), views_of(tail@)),
{
    let mut fields = fields;
    let d = if fields.len() > 3 {
        fields.pop()
    } else {
        None
    };
    let c = if fields.len() > 2 {
        fields.pop()
    } else {
        None
    };
    let b = if fields.len() > 1 {
        fields.pop()
    } else {
        None
    };
    let a = fields.pop();
    match kind {
        MessageCode::HELLO => {
            let realm = read_uri(a, kind, 0)?;
            let details = read_dict(b, kind, 1)?;
            Ok(BaseMessage::HELLO(MessageContent::new((realm, details))))
        },
        MessageCode::WELCOME => {
            let session = read_id(a, kind, 0)?;
            let details = read_dict(b, kind, 1)?;
            Ok(BaseMessage::WELCOME(MessageContent::new((session, details))))
        },
        MessageCode::ABORT => {
            let details = read_dict(a, kind, 0)?;
            let reason = read_uri(b, kind, 1)?;
            Ok(BaseMessage::ABORT(MessageContent::new((details, reason))))
        },
        MessageCode::GOODBYE => {
            let details = read_dict(a, kind, 0)?;
            let reason = read_uri(b, kind, 1)?;
            Ok(BaseMessage::GOODBYE(MessageContent::new((details, reason))))
        },
        MessageCode::ERROR => {
            let request_kind = read_request(a, kind, 0)?;
            let request = read_id(b, kind, 1)?;
            let details = read_dict(c, kind, 2)?;
            let error = read_uri(d, kind, 3)?;
            let arguments = Arguments::unflatten(tail)?;
            Ok(
                BaseMessage::ERROR(
                    MessageContent::with_arguments(
                        (request_kind, request, details, error),
                        arguments,
                    ),
                ),
            )
        },
        MessageCode::PUBLISH => {
            let request = read_id(a, kind, 0)?;
            let options = read_dict(b, kind, 1)?;
            let topic = read_uri(c, kind, 2)?;
            let arguments = Arguments::unflatten(tail)?;
            Ok(
                BaseMessage::PUBLISH(
                    MessageContent::with_arguments((request, options, topic), arguments),
                ),
            )
        },
        MessageCode::CALL => {
            let request = read_id(a, kind, 0)?;
            let options = read_dict(b, kind, 1)?;
            let procedure = read_uri(c, kind, 2)?;
            let arguments = Arguments::unflatten(tail)?;
            Ok(
                BaseMessage::CALL(
                    MessageContent::with_arguments((request, options, procedure), arguments),
                ),
            )
        },
        MessageCode::SUBSCRIBE => {
            let request = read_id(a, kind, 0)?;
            let options = read_dict(b, kind, 1)?;
            let topic = read_uri(c, kind, 2)?;
            Ok(BaseMessage::SUBSCRIBE(MessageContent::new((request, options, topic))))
        },
        MessageCode::REGISTER => {
            let request = read_id(a, kind, 0)?;
            let options = read_dict(b, kind, 1)?;
            let procedure = read_uri(c, kind, 2)?;
            Ok(BaseMessage::REGISTER(MessageContent::new((request, options, procedure))))
        },
        MessageCode::PUBLISHED => {
            let request = read_id(a, kind, 0)?;
            let publication = read_id(b, kind, 1)?;
            Ok(BaseMessage::PUBLISHED(MessageContent::new((request, publication))))
        },
        MessageCode::SUBSCRIBED => {
            let request = read_id(a, kind, 0)?;
            let subscription = read_id(b, kind, 1)?;
            Ok(BaseMessage::SUBSCRIBED(MessageContent::new((request, subscription))))
        },
        MessageCode::UNSUBSCRIBE => {
            let request = read_id(a, kind, 0)?;
            let subscription = read_id(b, kind, 1)?;
            Ok(BaseMessage::UNSUBSCRIBE(MessageContent::new((request, subscription))))
        },
        MessageCode::REGISTERED => {
            let request = read_id(a, kind, 0)?;
            let registration = read_id(b, kind, 1)?;
            Ok(BaseMessage::REGISTERED(MessageContent::new((request, registration))))
        },
        MessageCode::UNREGISTER => {
            let request = read_id(a, kind, 0)?;
            let registration = read_id(b, kind, 1)?;
            Ok(BaseMessage::UNREGISTER(MessageContent::new((request, registration))))
        },
        MessageCode::UNSUBSCRIBED => {
            let request = read_id(a, kind, 0)?;
            Ok(BaseMessage::UNSUBSCRIBED(MessageContent::new((request,))))
        },
        MessageCode::UNREGISTERED => {
            let request = read_id(a, kind, 0)?;
            Ok(BaseMessage::UNREGISTERED(MessageContent::new((request,))))
        },
        MessageCode::EVENT => {
            let subscription = read_id(a, kind, 0)?;
            let publication = read_id(b, kind, 1)?;
            let details = read_dict(c, kind, 2)?;
            let arguments = Arguments::unflatten(tail)?;
            Ok(
                BaseMessage::EVENT(
                    MessageContent::with_arguments(
                        (subscription, publication, details),
                        arguments,
                    ),
                ),
            )
        },
        MessageCode::INVOCATION => {
            let request = read_id(a, kind, 0)?;
            let registration = read_id(b, kind, 1)?;
            let details = read_dict(c, kind, 2)?;
            let arguments = Arguments::unflatten(tail)?;
            Ok(
                BaseMessage::INVOCATION(
                    MessageContent::with_arguments((request, registration, details), arguments),
                ),
            )
        },
        MessageCode::RESULT => {
            let request = read_id(a, kind, 0)?;
            let details = read_dict(b, kind, 1)?;
            let arguments = Arguments::unflatten(tail)?;
            Ok(BaseMessage::RESULT(MessageContent::with_arguments((request, details), arguments)))
        },
        MessageCode::YIELD => {
            let request = read_id(a, kind, 0)?;
            let options = read_dict(b, kind, 1)?;
            let arguments = Arguments::unflatten(tail)?;
            Ok(BaseMessage::YIELD(MessageContent::with_arguments((request, options), arguments)))
        },
    }
}

impl BaseMessage {
    /// Reads the values behind the wire code of `kind` as a message of that
    /// kind. Fewer values than the kind has fixed fields give
    /// `ArityMismatch`; more, for a kind without arguments,
    /// `UnexpectedTrailingArguments`. Then the first fixed field of a wrong
    /// type decides, then the shape of the arguments.
    pub fn from_fields(kind: MessageCode, rest: Vec<Intermediate>) -> (r: Result<
        BaseMessage,
        MessagingError,
    >)
        ensures
            decoded(r) == Message::spec_from_fields(kind, views_of(rest@)),
    {
        let arity = kind.arity();
        if rest.len() < arity {
            return Err(MessagingError::ArityMismatch);
        }
        if !kind.accepts_arguments() && rest.len() > arity {
            return Err(MessagingError::UnexpectedTrailingArguments);
        }
        let mut fields = rest;
        let tail = fields.split_off(arity);
        typed(kind, fields, tail)
    }

    /// Reads a sequence of values as a message: the wire code first, then
    /// the fixed fields of its kind, then the arguments. A sequence of fewer
    /// than two values gives `TooShort`; a first value that is not the code
    /// of a kind, `UnknownMessageCode`.
    pub fn from_intermediate(items: Vec<Intermediate>) -> (r: Result<BaseMessage, MessagingError>)
        ensures
            decoded(r) == Message::spec_from_intermediate(views_of(items@)),
    {
        if items.len() < 2 {
            return Err(MessagingError::TooShort);
        }
        let mut rest = items;
        let first = rest.remove(0);
        let kind = match first {
            Intermediate::U64(code) => MessageCode::from_u64(code),
            _ => None,
        };
        match kind {
            Some(kind) => BaseMessage::from_fields(kind, rest),
            None => Err(MessagingError::UnknownMessageCode),
        }
    }
}

/// The text that encodes a message: the JSON text of the sequence of
/// values that stands for it.
pub open spec fn spec_encode(m: Message) -> Result<Seq<char>, MessagingError> {
    match json_text(IntermediateView::Array(m.spec_to_intermediate())) {
        Some(text) => Ok(text),
        None => Err(MessagingError::SerializationError),
    }
}

/// The message that a parsed value stands for: the value has to be a
/// sequence, and the sequence that of a message.
pub open spec fn spec_from_value(parsed: Option<IntermediateView>) -> Result<
    Message,
    MessagingError,
> {
    match parsed {
        Some(IntermediateView::Array(items)) => Message::spec_from_intermediate(items),
        _ => Err(MessagingError::MalformedInput),
    }
}

/// The message that a text decodes to.
pub open spec fn spec_decode(text: Seq<char>) -> Result<Message, MessagingError> {
    spec_from_value(json_value(text))
}

impl BaseMessage {
    /// Reads a parsed value as a message. Anything but a sequence gives
    /// `MalformedInput`.
    pub fn from_value(value: Intermediate) -> (r: Result<BaseMessage, MessagingError>)
        ensures
            decoded(r) == spec_from_value(Some(value@)),
    {
        match value {
            Intermediate::Array(items) => {
                proof {
                    crate::intermediate::lemma_array_view(items);
                }
                BaseMessage::from_intermediate(items)
            },
            _ => Err(MessagingError::MalformedInput),
        }
    }
}

impl Encode<String, MessagingError> for BaseMessage {
    /// Encodes the message as JSON text: an array of the wire code, the
    /// fixed fields and the arguments. Fails with `SerializationError`
    /// where JSON has no text for a value in the message.
    fn encode(self) -> (r: Result<String, MessagingError>)
        ensures
            match r {
                Ok(text) => spec_encode(self@) == Ok::<Seq<char>, MessagingError>(text@),
                Err(e) => spec_encode(self@) == Err::<Seq<char>, MessagingError>(e),
            },
    {
        let items = match self.to_intermediate() {
            Ok(items) => items,
            Err(e) => {
                return Err(e);
            },
        };
        proof {
            crate::intermediate::lemma_array_view(items);
        }
        match to_string(&Intermediate::Array(items)) {
            Ok(text) => Ok(text),
            Err(_) => Err(MessagingError::SerializationError),
        }
    }
}

impl Decode<String, MessagingError> for BaseMessage {
    /// Decodes JSON text to a message. Text that is not JSON, or not a JSON
    /// array, gives `MalformedInput`; an array that stands for no message
    /// gives the error of [`BaseMessage::from_intermediate`].
    fn decode(serialized_data: String) -> (r: Result<BaseMessage, MessagingError>)
        ensures
            decoded(r) == spec_decode(serialized_data@),
    {
        match from_str(serialized_data.as_str()) {
            Ok(value) => BaseMessage::from_value(value),
            Err(_) => Err(MessagingError::MalformedInput),
        }
    }
}

/// Whether JSON carries a value faithfully: it has a text for the value,
/// and reading that text gives the value.
pub open spec fn json_faithful(value: IntermediateView) -> bool {
    json_text(value) matches Some(text) && json_value(text) == Some(value)
}

/// Decoding what a message encodes to gives the message, for every message
/// whose values JSON carries faithfully.
pub proof fn lemma_decode_encode(m: Message)
    requires
        json_faithful(IntermediateView::Array(m.spec_to_intermediate())),
    ensures
        spec_encode(m) matches Ok(text) && spec_decode(text) == Ok::<Message, MessagingError>(m),
{
    crate::message::lemma_round_trip(m);
}

} // verus!
