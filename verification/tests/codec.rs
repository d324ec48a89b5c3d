use wamp::{
    Arguments, BaseMessage, Decode, Dict, Encode, Intermediate, MessageCode, MessageContent,
    MessageErrorCode, MessagingError, ToIntermediate,
};

fn text(s: &str) -> String {
    String::from(s)
}

fn decode(s: &str) -> Result<BaseMessage, MessagingError> {
    BaseMessage::decode(text(s))
}

fn numbers(items: &[u64]) -> Vec<Intermediate> {
    items.iter().map(|n| Intermediate::U64(*n)).collect()
}

fn dict(entries: Vec<(&str, Intermediate)>) -> Dict {
    let mut d = Dict::new();
    for (key, value) in entries {
        d.insert(text(key), value);
    }
    d
}

#[test]
fn hello_decodes_and_encodes_to_the_same_array() {
    let input = "[1,\"com.example.realm\",{}]";
    let message = decode(input).unwrap();
    assert_eq!(
        message,
        BaseMessage::HELLO(MessageContent::new((text("com.example.realm"), Dict::new())))
    );
    assert_eq!(message.encode().unwrap(), input);
}

#[test]
fn publish_with_positional_arguments() {
    let message = decode("[16,1,{},\"com.example.topic\",[1,2,3]]").unwrap();
    assert_eq!(
        message,
        BaseMessage::PUBLISH(MessageContent::with_arguments(
            (1, Dict::new(), text("com.example.topic")),
            Arguments::Args(numbers(&[1, 2, 3])),
        ))
    );
    match message {
        BaseMessage::PUBLISH(content) => {
            assert_eq!(content.arguments.positional(), Some(&numbers(&[1, 2, 3])));
            assert_eq!(content.arguments.keyword(), None);
        }
        _ => panic!("not a PUBLISH"),
    }
}

#[test]
fn publish_with_keyword_arguments() {
    let message = decode("[16,1,{},\"com.example.topic\",[1,2,3],{\"ack\":true}]").unwrap();
    assert_eq!(
        message,
        BaseMessage::PUBLISH(MessageContent::with_arguments(
            (1, Dict::new(), text("com.example.topic")),
            Arguments::KwArgs(
                numbers(&[1, 2, 3]),
                dict(vec![("ack", Intermediate::Bool(true))]),
            ),
        ))
    );
}

#[test]
fn unsubscribed_both_ways() {
    assert_eq!(
        decode("[35,9]").unwrap(),
        BaseMessage::UNSUBSCRIBED(MessageContent::new((9,)))
    );
    assert_eq!(
        BaseMessage::UNSUBSCRIBED(MessageContent::new((9,))).encode().unwrap(),
        "[35,9]"
    );
}

#[test]
fn error_answering_a_call() {
    assert_eq!(
        decode("[8,48,7,{},\"com.example.error\",[\"bad arg\"]]").unwrap(),
        BaseMessage::ERROR(MessageContent::with_arguments(
            (MessageErrorCode::CALL, 7, Dict::new(), text("com.example.error")),
            Arguments::with_args(vec![Intermediate::String(text("bad arg"))]),
        ))
    );
}

#[test]
fn encodes_the_examples_of_the_wire_format() {
    assert_eq!(
        BaseMessage::SUBSCRIBED(MessageContent::new((123, 456))).encode().unwrap(),
        "[33,123,456]"
    );
    assert_eq!(
        BaseMessage::PUBLISH(MessageContent::with_arguments(
            (1, Dict::new(), text("com.example.topic")),
            Arguments::with_args(numbers(&[1, 2, 3])),
        ))
        .encode()
        .unwrap(),
        "[16,1,{},\"com.example.topic\",[1,2,3]]"
    );
    assert_eq!(
        BaseMessage::CALL(MessageContent::with_arguments(
            (7, Dict::new(), text("com.example.add")),
            Arguments::with_kwargs(
                numbers(&[2, 3]),
                dict(vec![("unit", Intermediate::String(text("cm")))]),
            ),
        ))
        .encode()
        .unwrap(),
        "[48,7,{},\"com.example.add\",[2,3],{\"unit\":\"cm\"}]"
    );
}

#[test]
fn short_input_is_too_short() {
    assert_eq!(decode("[]"), Err(MessagingError::TooShort));
    assert_eq!(decode("[1]"), Err(MessagingError::TooShort));
}

#[test]
fn unknown_code_is_rejected() {
    assert_eq!(decode("[999, \"x\"]"), Err(MessagingError::UnknownMessageCode));
    assert_eq!(decode("[\"1\", \"x\"]"), Err(MessagingError::UnknownMessageCode));
    assert_eq!(decode("[-1, \"x\"]"), Err(MessagingError::UnknownMessageCode));
    assert_eq!(decode("[0, \"x\"]"), Err(MessagingError::UnknownMessageCode));
}

#[test]
fn trailing_values_are_rejected_where_the_kind_takes_none() {
    assert_eq!(
        decode("[33,1,2,[1,2,3]]"),
        Err(MessagingError::UnexpectedTrailingArguments)
    );
    assert_eq!(
        decode("[1,\"realm\",{},[]]"),
        Err(MessagingError::UnexpectedTrailingArguments)
    );
}

#[test]
fn error_must_answer_a_request_kind() {
    assert_eq!(
        decode("[8,2,7,{},\"com.example.error\"]"),
        Err(MessagingError::InvalidRequestErrorKind)
    );
    assert_eq!(
        decode("[8,999,7,{},\"com.example.error\"]"),
        Err(MessagingError::InvalidRequestErrorKind)
    );
    assert_eq!(
        decode("[8,\"48\",7,{},\"com.example.error\"]"),
        Err(MessagingError::FieldTypeMismatch(MessageCode::ERROR, 0))
    );
}

#[test]
fn malformed_input_is_rejected() {
    assert_eq!(decode("not json"), Err(MessagingError::MalformedInput));
    assert_eq!(decode("[1,\"realm\",{}"), Err(MessagingError::MalformedInput));
    assert_eq!(decode("{}"), Err(MessagingError::MalformedInput));
    assert_eq!(decode("35"), Err(MessagingError::MalformedInput));
    assert_eq!(decode(""), Err(MessagingError::MalformedInput));
}

#[test]
fn too_few_fixed_fields_is_an_arity_mismatch() {
    assert_eq!(decode("[16,1,{}]"), Err(MessagingError::ArityMismatch));
    assert_eq!(decode("[8,48,7,{}]"), Err(MessagingError::ArityMismatch));
    assert_eq!(decode("[1,\"realm\"]"), Err(MessagingError::ArityMismatch));
}

#[test]
fn arguments_must_have_their_shape() {
    assert_eq!(
        decode("[16,1,{},\"t\",{\"k\":1}]"),
        Err(MessagingError::ArgumentShapeError)
    );
    assert_eq!(
        decode("[16,1,{},\"t\",[1],[2]]"),
        Err(MessagingError::ArgumentShapeError)
    );
    assert_eq!(
        decode("[16,1,{},\"t\",[1],{},3]"),
        Err(MessagingError::ArgumentShapeError)
    );
    assert_eq!(
        decode("[50,1,{},\"x\"]"),
        Err(MessagingError::ArgumentShapeError)
    );
}

#[test]
fn the_first_wrong_field_decides() {
    assert_eq!(
        decode("[1,5,{}]"),
        Err(MessagingError::FieldTypeMismatch(MessageCode::HELLO, 0))
    );
    assert_eq!(
        decode("[1,\"realm\",[]]"),
        Err(MessagingError::FieldTypeMismatch(MessageCode::HELLO, 1))
    );
    assert_eq!(
        decode("[16,\"1\",5,6,7]"),
        Err(MessagingError::FieldTypeMismatch(MessageCode::PUBLISH, 0))
    );
    assert_eq!(
        decode("[16,1,{},7,\"not arguments\"]"),
        Err(MessagingError::FieldTypeMismatch(MessageCode::PUBLISH, 2))
    );
    assert_eq!(
        decode("[17,1,-2]"),
        Err(MessagingError::FieldTypeMismatch(MessageCode::PUBLISHED, 1))
    );
    assert_eq!(
        decode("[36,1,2.5,{}]"),
        Err(MessagingError::FieldTypeMismatch(MessageCode::EVENT, 1))
    );
    assert_eq!(
        decode("[8,48,7,{},null]"),
        Err(MessagingError::FieldTypeMismatch(MessageCode::ERROR, 3))
    );
}

#[test]
fn a_number_that_is_no_number_cannot_be_encoded() {
    let message = BaseMessage::RESULT(MessageContent::with_arguments(
        (1, Dict::new()),
        Arguments::with_args(vec![Intermediate::Real(text("one and a half"))]),
    ));
    assert_eq!(message.encode(), Err(MessagingError::SerializationError));
}

#[test]
fn payload_values_pass_through_json() {
    let input = "[50,1,{\"a\":null,\"b\":[true,-3,1.5,\"x\",{\"c\":[]}]},[18446744073709551615]]";
    let message = decode(input).unwrap();
    let inner = dict(vec![("c", Intermediate::Array(vec![]))]);
    let details = dict(vec![
        ("a", Intermediate::Null),
        (
            "b",
            Intermediate::Array(vec![
                Intermediate::Bool(true),
                Intermediate::I64(-3),
                Intermediate::Real(text("1.5")),
                Intermediate::String(text("x")),
                Intermediate::Object(inner),
            ]),
        ),
    ]);
    assert_eq!(
        message,
        BaseMessage::RESULT(MessageContent::with_arguments(
            (1, details),
            Arguments::with_args(vec![Intermediate::U64(u64::MAX)]),
        ))
    );
    assert_eq!(message.encode().unwrap(), input);
}

#[test]
fn every_kind_survives_the_round_trip() {
    let d = || dict(vec![("k", Intermediate::U64(1))]);
    let u = || text("com.example.x");
    let args = || Arguments::with_kwargs(numbers(&[4, 5]), d());
    let messages = vec![
        BaseMessage::HELLO(MessageContent::new((u(), d()))),
        BaseMessage::WELCOME(MessageContent::new((2, d()))),
        BaseMessage::ABORT(MessageContent::new((d(), u()))),
        BaseMessage::GOODBYE(MessageContent::new((d(), u()))),
        BaseMessage::ERROR(MessageContent::with_arguments(
            (MessageErrorCode::INVOCATION, 3, d(), u()),
            args(),
        )),
        BaseMessage::PUBLISH(MessageContent::with_arguments((4, d(), u()), Arguments::no_args())),
        BaseMessage::PUBLISHED(MessageContent::new((5, 6))),
        BaseMessage::SUBSCRIBE(MessageContent::new((7, d(), u()))),
        BaseMessage::SUBSCRIBED(MessageContent::new((8, 9))),
        BaseMessage::UNSUBSCRIBE(MessageContent::new((10, 11))),
        BaseMessage::UNSUBSCRIBED(MessageContent::new((12,))),
        BaseMessage::EVENT(MessageContent::with_arguments((13, 14, d()), args())),
        BaseMessage::CALL(MessageContent::with_arguments(
            (15, d(), u()),
            Arguments::with_args(vec![]),
        )),
        BaseMessage::RESULT(MessageContent::with_arguments((16, d()), args())),
        BaseMessage::REGISTER(MessageContent::new((17, d(), u()))),
        BaseMessage::REGISTERED(MessageContent::new((18, 19))),
        BaseMessage::UNREGISTER(MessageContent::new((20, 21))),
        BaseMessage::UNREGISTERED(MessageContent::new((22,))),
        BaseMessage::INVOCATION(MessageContent::with_arguments((23, 24, d()), args())),
        BaseMessage::YIELD(MessageContent::with_arguments((25, d()), Arguments::no_args())),
    ];
    for message in messages {
        let copy = message.clone();
        let items = message.clone().to_intermediate().unwrap();
        assert_eq!(BaseMessage::from_intermediate(items), Ok(copy));
        let copy = message.clone();
        let encoded = message.encode().unwrap();
        assert_eq!(BaseMessage::decode(encoded), Ok(copy));
    }
}

#[test]
fn dictionaries_come_back_however_they_were_filled() {
    let details = dict(vec![
        ("zeta", Intermediate::U64(1)),
        ("alpha", Intermediate::Bool(false)),
        ("mid", Intermediate::Object(dict(vec![
            ("y", Intermediate::Null),
            ("x", Intermediate::I64(-7)),
        ]))),
    ]);
    let message = BaseMessage::WELCOME(MessageContent::new((42, details)));
    let encoded = message.clone().encode().unwrap();
    assert_eq!(
        encoded,
        "[2,42,{\"alpha\":false,\"mid\":{\"x\":-7,\"y\":null},\"zeta\":1}]"
    );
    assert_eq!(BaseMessage::decode(encoded), Ok(message));
}

#[test]
fn message_info_gives_code_and_arity() {
    let message = BaseMessage::ERROR(MessageContent::with_arguments(
        (MessageErrorCode::CALL, 7, Dict::new(), text("e")),
        Arguments::no_args(),
    ));
    assert_eq!(message.message_info(), (MessageCode::ERROR, 4));
    assert_eq!(
        BaseMessage::UNREGISTERED(MessageContent::new((1,))).message_info(),
        (MessageCode::UNREGISTERED, 1)
    );
    assert_eq!(
        BaseMessage::HELLO(MessageContent::new((text("r"), Dict::new()))).message_info(),
        (MessageCode::HELLO, 2)
    );
}

#[test]
fn to_intermediate_puts_the_code_in_front() {
    let message = BaseMessage::EVENT(MessageContent::with_arguments(
        (1, 2, Dict::new()),
        Arguments::with_args(numbers(&[9])),
    ));
    assert_eq!(
        message.to_intermediate(),
        Ok(vec![
            Intermediate::U64(36),
            Intermediate::U64(1),
            Intermediate::U64(2),
            Intermediate::Object(Dict::new()),
            Intermediate::Array(numbers(&[9])),
        ])
    );
    let content = MessageContent {
        message: numbers(&[1, 2]),
        arguments: vec![Intermediate::Array(vec![])],
    };
    assert_eq!(
        content.to_intermediate(),
        Ok(vec![
            Intermediate::U64(1),
            Intermediate::U64(2),
            Intermediate::Array(vec![]),
        ])
    );
}

#[test]
fn from_value_wants_a_sequence() {
    assert_eq!(
        BaseMessage::from_value(Intermediate::Array(numbers(&[35, 9]))),
        Ok(BaseMessage::UNSUBSCRIBED(MessageContent::new((9,))))
    );
    assert_eq!(
        BaseMessage::from_value(Intermediate::U64(35)),
        Err(MessagingError::MalformedInput)
    );
    assert_eq!(
        BaseMessage::from_fields(MessageCode::UNSUBSCRIBED, numbers(&[9])),
        Ok(BaseMessage::UNSUBSCRIBED(MessageContent::new((9,))))
    );
    assert_eq!(
        BaseMessage::from_fields(MessageCode::UNSUBSCRIBED, vec![]),
        Err(MessagingError::ArityMismatch)
    );
}

#[test]
fn numbers_come_back_in_their_plainest_form() {
    let message = BaseMessage::YIELD(MessageContent::with_arguments(
        (1, Dict::new()),
        Arguments::with_args(vec![
            Intermediate::I64(5),
            Intermediate::Real(text("1.50")),
            Intermediate::Real(text("7")),
            Intermediate::Real(text("-7")),
            Intermediate::Real(text("1e2")),
        ]),
    ));
    let encoded = message.encode().unwrap();
    assert_eq!(encoded, "[70,1,{},[5,1.5,7,-7,100.0]]");
    assert_eq!(
        BaseMessage::decode(encoded),
        Ok(BaseMessage::YIELD(MessageContent::with_arguments(
            (1, Dict::new()),
            Arguments::with_args(vec![
                Intermediate::U64(5),
                Intermediate::Real(text("1.5")),
                Intermediate::U64(7),
                Intermediate::I64(-7),
                Intermediate::Real(text("100.0")),
            ]),
        )))
    );
}

#[test]
fn strings_are_escaped_and_read_back() {
    let uri = "com.example.\"quoted\"\\\n\u{e9}";
    let message = BaseMessage::SUBSCRIBE(MessageContent::new((3, Dict::new(), text(uri))));
    let encoded = message.clone().encode().unwrap();
    assert_eq!(encoded, "[32,3,{},\"com.example.\\\"quoted\\\"\\\\\\n\u{e9}\"]");
    assert_eq!(BaseMessage::decode(encoded), Ok(message));
}

#[test]
fn whitespace_around_the_values_is_read_over() {
    assert_eq!(
        decode(" [ 35 ,\n 9 ] "),
        Ok(BaseMessage::UNSUBSCRIBED(MessageContent::new((9,))))
    );
    assert_eq!(decode("[35,9] x"), Err(MessagingError::MalformedInput));
}
