use wamp::{
    Arguments, Arity, Dict, Intermediate, MessageCode, MessageErrorCode, MessagingError,
    SerializationType,
};

fn kinds() -> Vec<(MessageCode, u64, usize, bool)> {
    vec![
        (MessageCode::HELLO, 1, 2, false),
        (MessageCode::WELCOME, 2, 2, false),
        (MessageCode::ABORT, 3, 2, false),
        (MessageCode::GOODBYE, 6, 2, false),
        (MessageCode::ERROR, 8, 4, true),
        (MessageCode::PUBLISH, 16, 3, true),
        (MessageCode::PUBLISHED, 17, 2, false),
        (MessageCode::SUBSCRIBE, 32, 3, false),
        (MessageCode::SUBSCRIBED, 33, 2, false),
        (MessageCode::UNSUBSCRIBE, 34, 2, false),
        (MessageCode::UNSUBSCRIBED, 35, 1, false),
        (MessageCode::EVENT, 36, 3, true),
        (MessageCode::CALL, 48, 3, true),
        (MessageCode::RESULT, 50, 2, true),
        (MessageCode::REGISTER, 64, 3, false),
        (MessageCode::REGISTERED, 65, 2, false),
        (MessageCode::UNREGISTER, 66, 2, false),
        (MessageCode::UNREGISTERED, 67, 1, false),
        (MessageCode::INVOCATION, 68, 3, true),
        (MessageCode::YIELD, 70, 2, true),
    ]
}

#[test]
fn every_kind_has_its_code() {
    for (kind, code, _, _) in kinds() {
        assert_eq!(kind.code(), code);
        assert_eq!(MessageCode::from_u64(code), Some(kind));
    }
}

#[test]
fn codes_are_a_table_with_gaps() {
    let known: Vec<u64> = kinds().iter().map(|k| k.1).collect();
    for code in 0..200u64 {
        assert_eq!(MessageCode::from_u64(code).is_some(), known.contains(&code));
    }
    assert_eq!(MessageCode::from_u64(999), None);
    assert_eq!(MessageCode::from_u64(u64::MAX), None);
}

#[test]
fn every_kind_has_its_arity() {
    assert_eq!(kinds().len(), 20);
    for (kind, _, arity, accepts) in kinds() {
        assert_eq!(kind.arity(), arity);
        assert_eq!(kind.accepts_arguments(), accepts);
    }
}

#[test]
fn request_kinds_are_seven() {
    let requests = vec![
        (MessageCode::SUBSCRIBE, MessageErrorCode::SUBSCRIBE),
        (MessageCode::UNSUBSCRIBE, MessageErrorCode::UNSUBSCRIBE),
        (MessageCode::PUBLISH, MessageErrorCode::PUBLISH),
        (MessageCode::CALL, MessageErrorCode::CALL),
        (MessageCode::REGISTER, MessageErrorCode::REGISTER),
        (MessageCode::UNREGISTER, MessageErrorCode::UNREGISTER),
        (MessageCode::INVOCATION, MessageErrorCode::INVOCATION),
    ];
    for (kind, _, _, _) in kinds() {
        let expected = requests.iter().find(|r| r.0 == kind).map(|r| r.1);
        assert_eq!(kind.error_code(), expected);
        assert_eq!(kind.is_request(), expected.is_some());
        assert_eq!(MessageErrorCode::from_u64(kind.code()), expected);
    }
    for (kind, request) in requests {
        assert_eq!(request.message_code(), kind);
        assert_eq!(request.code(), kind.code());
    }
    assert_eq!(MessageErrorCode::from_u64(2), None);
    assert_eq!(MessageErrorCode::from_u64(999), None);
    assert_eq!(MessageErrorCode::from_u64(48), Some(MessageErrorCode::CALL));
}

#[test]
fn keyword_arguments_need_positional_ones() {
    let kwargs = || {
        let mut d = Dict::new();
        d.insert(String::from("k"), Intermediate::Null);
        d
    };
    let all = vec![
        Arguments::no_args(),
        Arguments::with_args(vec![]),
        Arguments::with_args(vec![Intermediate::U64(1)]),
        Arguments::with_kwargs(vec![], kwargs()),
        Arguments::with_kwargs(vec![Intermediate::U64(1)], Dict::new()),
        Arguments::NoArgs,
        Arguments::Args(vec![]),
        Arguments::KwArgs(vec![], kwargs()),
    ];
    for arguments in all {
        if arguments.keyword().is_some() {
            assert!(arguments.positional().is_some());
        }
    }
    assert_eq!(Arguments::no_args().positional(), None);
    assert_eq!(Arguments::with_args(vec![]).positional(), Some(&vec![]));
    assert_eq!(Arguments::with_args(vec![]).keyword(), None);
    assert_eq!(Arguments::with_kwargs(vec![], kwargs()).keyword(), Some(&kwargs()));
}

#[test]
fn arguments_flatten_to_none_one_or_two_values() {
    let kwargs = || {
        let mut d = Dict::new();
        d.insert(String::from("unit"), Intermediate::String(String::from("cm")));
        d
    };
    let args = || vec![Intermediate::U64(2), Intermediate::U64(3)];
    assert_eq!(Arguments::no_args().flatten(), vec![]);
    assert_eq!(
        Arguments::with_args(args()).flatten(),
        vec![Intermediate::Array(args())]
    );
    assert_eq!(
        Arguments::with_kwargs(args(), kwargs()).flatten(),
        vec![Intermediate::Array(args()), Intermediate::Object(kwargs())]
    );
    for arguments in [
        Arguments::no_args(),
        Arguments::with_args(args()),
        Arguments::with_kwargs(args(), kwargs()),
    ] {
        assert_eq!(Arguments::unflatten(arguments.clone().flatten()), Ok(arguments));
    }
}

#[test]
fn unflatten_rejects_other_shapes() {
    let shape = Err(MessagingError::ArgumentShapeError);
    assert_eq!(Arguments::unflatten(vec![Intermediate::Object(Dict::new())]), shape);
    assert_eq!(Arguments::unflatten(vec![Intermediate::U64(1)]), shape);
    assert_eq!(
        Arguments::unflatten(vec![Intermediate::Array(vec![]), Intermediate::Array(vec![])]),
        shape
    );
    assert_eq!(
        Arguments::unflatten(vec![Intermediate::Object(Dict::new()), Intermediate::Array(vec![])]),
        shape
    );
    assert_eq!(
        Arguments::unflatten(vec![
            Intermediate::Array(vec![]),
            Intermediate::Object(Dict::new()),
            Intermediate::Null,
        ]),
        shape
    );
    assert_eq!(Arguments::unflatten(vec![]), Ok(Arguments::NoArgs));
}

#[test]
fn a_dictionary_keeps_one_value_per_key() {
    let mut d = Dict::new();
    assert_eq!(d.len(), 0);
    assert_eq!(d.get("a"), None);
    assert_eq!(d.insert(String::from("a"), Intermediate::U64(1)), None);
    assert_eq!(d.insert(String::from("b"), Intermediate::U64(2)), None);
    assert_eq!(d.len(), 2);
    assert_eq!(
        d.insert(String::from("a"), Intermediate::U64(3)),
        Some(Intermediate::U64(1))
    );
    assert_eq!(d.len(), 2);
    assert_eq!(d.get("a"), Some(&Intermediate::U64(3)));
    assert_eq!(d.get("b"), Some(&Intermediate::U64(2)));
    assert_eq!(d.get("c"), None);
    let copy = d.clone();
    assert_eq!(copy, d);
}

#[test]
fn dictionaries_with_the_same_entries_are_equal() {
    let mut a = Dict::new();
    a.insert(String::from("b"), Intermediate::U64(2));
    a.insert(String::from("a"), Intermediate::U64(1));
    a.insert(String::from("ab"), Intermediate::U64(3));
    a.insert(String::from(""), Intermediate::U64(0));
    a.insert(String::from("\u{e9}"), Intermediate::U64(4));
    a.insert(String::from("B"), Intermediate::U64(5));
    let mut b = Dict::new();
    b.insert(String::from("B"), Intermediate::U64(5));
    b.insert(String::from("\u{e9}"), Intermediate::U64(4));
    b.insert(String::from(""), Intermediate::U64(0));
    b.insert(String::from("ab"), Intermediate::U64(3));
    b.insert(String::from("a"), Intermediate::U64(9));
    b.insert(String::from("b"), Intermediate::U64(2));
    assert_ne!(a, b);
    b.insert(String::from("a"), Intermediate::U64(1));
    assert_eq!(a, b);
    assert_eq!(a.len(), 6);
    assert_eq!(a.get("ab"), Some(&Intermediate::U64(3)));
    assert_eq!(a.get(""), Some(&Intermediate::U64(0)));
}

#[test]
fn entries_stand_in_the_order_of_their_keys() {
    let d = Dict::new()
        .with(String::from("b"), Intermediate::U64(1))
        .with(String::from("\u{e9}"), Intermediate::U64(2))
        .with(String::from("ab"), Intermediate::U64(3))
        .with(String::from("a"), Intermediate::U64(4))
        .with(String::from("B"), Intermediate::U64(5))
        .with(String::from("a"), Intermediate::U64(6));
    let keys: Vec<&str> = d.entries().iter().map(|e| e.0.as_str()).collect();
    assert_eq!(keys, vec!["B", "a", "ab", "b", "\u{e9}"]);
    assert_eq!(d.get("a"), Some(&Intermediate::U64(6)));
    assert_eq!(d.entries()[0], (String::from("B"), Intermediate::U64(5)));
}

#[test]
fn errors_describe_themselves() {
    assert_eq!(MessagingError::TooShort.description(), "WAMP Messaging Error");
}

#[test]
fn json_travels_as_the_json_subprotocol() {
    assert_eq!(SerializationType::JSON.subprotocol(), "wamp.2.json");
}

#[test]
fn from_arguments0_wants_no_arguments() {
    assert_eq!(Arguments::no_args().from_arguments0(), Ok(()));
    assert_eq!(
        Arguments::with_args(vec![]).from_arguments0(),
        Err(MessagingError::ArgumentShapeError)
    );
    assert_eq!(
        Arguments::with_kwargs(vec![], Dict::new()).from_arguments0(),
        Err(MessagingError::ArgumentShapeError)
    );
}
