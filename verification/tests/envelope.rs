use blextism::envelope::{Kwargs, PyArgs};
use blextism::model::{Element, Shape, TypeExpr};
use blextism::wire::{decode_nullable, encode_nullable, BpyPtr, Scalar, Value};

fn typed(shape: Shape, nullable: bool) -> TypeExpr {
    TypeExpr { shape, nullable }
}

fn reference(n: i128) -> Value {
    Value::Object(vec![("@ptr".to_string(), Value::Integer(n))])
}

#[test]
fn the_getter_envelope_holds_the_receiver_only() {
    let handle = BpyPtr::new(42);
    let envelope = PyArgs::new(&handle);
    assert_eq!(envelope.target, Some(handle));
    assert_eq!(envelope.args, None);
    assert_eq!(envelope.kwargs, None);
}

#[test]
fn the_setter_envelope_holds_the_receiver_and_one_argument() {
    let handle = BpyPtr::new(42);
    let envelope = PyArgs::arg1(&handle, Scalar::Bool(false).encode());
    assert_eq!(envelope.target, Some(handle));
    assert_eq!(envelope.args, Some(vec![Value::Bool(false)]));
    assert_eq!(envelope.kwargs, None);
}

#[test]
fn the_call_envelope_holds_what_it_is_given() {
    let handle = BpyPtr::new(7);
    let mut kwargs = Kwargs::new();
    kwargs.insert("frame".to_string(), Value::Integer(45));
    let envelope = PyArgs::argv(
        Some(&handle),
        vec![Value::Text("default_value".to_string()), Value::Null],
        Some(kwargs),
    );
    assert_eq!(envelope.target, Some(handle));
    assert_eq!(
        envelope.args,
        Some(vec![Value::Text("default_value".to_string()), Value::Null])
    );
    assert_eq!(
        envelope.kwargs,
        Some(Kwargs(vec![("frame".to_string(), Value::Integer(45))]))
    );
    let bare = PyArgs::argv(None, Vec::new(), None);
    assert_eq!(bare.target, None);
    assert_eq!(bare.args, Some(Vec::new()));
    assert_eq!(bare.kwargs, None);
}

#[test]
fn an_operator_without_arguments_sends_an_empty_list_and_no_names() {
    let envelope = PyArgs::named(Kwargs::from(Vec::new()));
    assert_eq!(envelope.target, None);
    assert_eq!(envelope.args, Some(Vec::new()));
    assert_eq!(envelope.kwargs, None);
}

#[test]
fn an_envelope_is_framed_as_self_args_and_kwargs() {
    let framed = PyArgs::named(Kwargs::new()).into_value();
    assert_eq!(
        framed,
        Value::Object(vec![
            ("self".to_string(), Value::Null),
            ("args".to_string(), Value::List(Vec::new())),
            ("kwargs".to_string(), Value::Null),
        ])
    );

    let framed = PyArgs::new(&BpyPtr::new(5)).into_value();
    assert_eq!(
        framed,
        Value::Object(vec![
            ("self".to_string(), reference(5)),
            ("args".to_string(), Value::Null),
            ("kwargs".to_string(), Value::Null),
        ])
    );

    let mut kwargs = Kwargs::new();
    kwargs.insert("frame".to_string(), Value::Integer(45));
    let framed =
        PyArgs::argv(Some(&BpyPtr::new(-1)), vec![Value::Bool(true)], Some(kwargs)).into_value();
    assert_eq!(
        framed,
        Value::Object(vec![
            ("self".to_string(), reference(-1)),
            ("args".to_string(), Value::List(vec![Value::Bool(true)])),
            (
                "kwargs".to_string(),
                Value::Object(vec![("frame".to_string(), Value::Integer(45))])
            ),
        ])
    );
}

#[test]
fn an_operator_with_arguments_sends_them_by_name() {
    let kwargs = Kwargs::from(vec![("action".to_string(), Value::Text("SELECT".to_string()))]);
    let envelope = PyArgs::named(kwargs);
    assert_eq!(envelope.target, None);
    assert_eq!(envelope.args, Some(Vec::new()));
    assert_eq!(
        envelope.kwargs,
        Some(Kwargs(vec![("action".to_string(), Value::Text("SELECT".to_string()))]))
    );
}

#[test]
fn a_later_named_argument_replaces_an_earlier_one() {
    let mut kwargs = Kwargs::from(vec![
        ("frame".to_string(), Value::Integer(1)),
        ("type".to_string(), Value::Text("SOLIDIFY".to_string())),
        ("frame".to_string(), Value::Integer(2)),
    ]);
    assert!(!kwargs.is_empty());
    assert_eq!(kwargs.get("frame"), Some(&Value::Integer(2)));
    assert_eq!(kwargs.get("type"), Some(&Value::Text("SOLIDIFY".to_string())));
    assert_eq!(kwargs.get("missing"), None);
    kwargs.insert("type".to_string(), Value::Null);
    assert_eq!(kwargs.get("type"), Some(&Value::Null));
    assert!(Kwargs::new().is_empty());
    assert_eq!(Kwargs::new().get("frame"), None);
}

#[test]
fn a_handle_travels_as_its_reference() {
    let handle = BpyPtr::new(-9);
    assert_eq!(handle.ptr(), -9);
    assert_eq!(handle.to_value(), reference(-9));
    assert_eq!(BpyPtr::from_value(&handle.to_value()), Some(handle));
    assert_eq!(BpyPtr::from_value(&reference(i64::MAX as i128)), Some(BpyPtr::new(i64::MAX)));
    assert_eq!(BpyPtr::from_value(&reference(i64::MIN as i128)), Some(BpyPtr::new(i64::MIN)));
}

#[test]
fn what_is_no_reference_is_no_handle() {
    assert_eq!(BpyPtr::from_value(&Value::Null), None);
    assert_eq!(BpyPtr::from_value(&Value::Integer(5)), None);
    assert_eq!(BpyPtr::from_value(&Value::Object(Vec::new())), None);
    assert_eq!(BpyPtr::from_value(&reference(i64::MAX as i128 + 1)), None);
    assert_eq!(BpyPtr::from_value(&reference(i64::MIN as i128 - 1)), None);
    assert_eq!(
        BpyPtr::from_value(&Value::Object(vec![("ptr".to_string(), Value::Integer(5))])),
        None
    );
    assert_eq!(
        BpyPtr::from_value(&Value::Object(vec![(
            "@ptr".to_string(),
            Value::Text("5".to_string())
        )])),
        None
    );
    assert_eq!(
        BpyPtr::from_value(&Value::Object(vec![
            ("@ptr".to_string(), Value::Integer(5)),
            ("extra".to_string(), Value::Null),
        ])),
        None
    );
}

#[test]
fn handles_are_the_same_when_their_references_are() {
    assert_eq!(BpyPtr::new(3), BpyPtr::new(3));
    assert_ne!(BpyPtr::new(3), BpyPtr::new(4));
    let copy = BpyPtr::new(3);
    let other = copy;
    assert_eq!(copy, other);
}

#[test]
fn set_then_get_gives_the_value_back() {
    let handle = BpyPtr::new(1);
    let cases = vec![
        (Scalar::Bool(true), Shape::Scalar(Element::Bool)),
        (Scalar::Bool(false), Shape::Scalar(Element::Bool)),
        (Scalar::Unsigned(0), Shape::Scalar(Element::Unsigned)),
        (Scalar::Unsigned(u64::MAX), Shape::Scalar(Element::Unsigned)),
        (Scalar::Signed(i64::MIN), Shape::Scalar(Element::Signed)),
        (Scalar::Signed(-1), Shape::Scalar(Element::Signed)),
        (Scalar::Signed(i64::MAX), Shape::Scalar(Element::Signed)),
        (Scalar::Text(String::new()), Shape::Text),
        (Scalar::Text("CYCLES".to_string()), Shape::Text),
    ];
    for (scalar, shape) in cases {
        let sent = PyArgs::arg1(&handle, scalar.clone().encode());
        let answer = &sent.args.as_ref().unwrap()[0];
        assert_eq!(Scalar::decode(&shape, answer), Some(scalar.clone()));
        assert_eq!(
            decode_nullable(&typed(shape, true), answer),
            Some(Some(scalar))
        );
    }
}

#[test]
fn absence_travels_as_none() {
    assert_eq!(encode_nullable(None), Value::Null);
    assert_eq!(encode_nullable(Some(Scalar::Signed(5))), Value::Integer(5));
    let nullable = typed(Shape::Scalar(Element::Bool), true);
    let never_none = typed(Shape::Scalar(Element::Bool), false);
    assert_eq!(decode_nullable(&nullable, &Value::Null), Some(None));
    assert_eq!(decode_nullable(&never_none, &Value::Null), None);
    assert_eq!(decode_nullable(&never_none, &Value::Bool(true)), Some(Some(Scalar::Bool(true))));
    assert_eq!(decode_nullable(&nullable, &Value::Integer(1)), None);
}

#[test]
fn a_value_of_another_kind_is_not_decoded() {
    assert_eq!(Scalar::decode(&Shape::Scalar(Element::Bool), &Value::Integer(1)), None);
    assert_eq!(Scalar::decode(&Shape::Scalar(Element::Unsigned), &Value::Integer(-1)), None);
    assert_eq!(
        Scalar::decode(&Shape::Scalar(Element::Unsigned), &Value::Integer(u64::MAX as i128 + 1)),
        None
    );
    assert_eq!(
        Scalar::decode(&Shape::Scalar(Element::Signed), &Value::Integer(i64::MAX as i128 + 1)),
        None
    );
    assert_eq!(
        Scalar::decode(&Shape::Scalar(Element::Signed), &Value::Integer(u64::MAX as i128)),
        None
    );
    assert_eq!(Scalar::decode(&Shape::Text, &Value::Bool(true)), None);
    assert_eq!(Scalar::decode(&Shape::Scalar(Element::Float), &Value::Real { bits: 0 }), None);
    assert_eq!(Scalar::decode(&Shape::Handle, &reference(1)), None);
    assert_eq!(
        Scalar::decode(&Shape::TextView, &Value::Text("x".to_string())),
        Some(Scalar::Text("x".to_string()))
    );
}

#[test]
fn a_response_is_held_against_the_expected_type() {
    let one = 0x3ff0_0000_0000_0000u64;
    assert!(Value::Bool(true).conforms_to(&typed(Shape::Scalar(Element::Bool), false)));
    assert!(!Value::Null.conforms_to(&typed(Shape::Scalar(Element::Bool), false)));
    assert!(Value::Null.conforms_to(&typed(Shape::Scalar(Element::Bool), true)));
    assert!(Value::Integer(5).conforms_to(&typed(Shape::Scalar(Element::Unsigned), false)));
    assert!(!Value::Integer(-5).conforms_to(&typed(Shape::Scalar(Element::Unsigned), false)));
    assert!(Value::Integer(-5).conforms_to(&typed(Shape::Scalar(Element::Signed), false)));
    assert!(!Value::Integer(u64::MAX as i128)
        .conforms_to(&typed(Shape::Scalar(Element::Signed), false)));
    assert!(Value::Real { bits: one }.conforms_to(&typed(Shape::Scalar(Element::Float), false)));
    assert!(Value::Integer(2).conforms_to(&typed(Shape::Scalar(Element::Float), false)));
    assert!(!Value::Real { bits: one }.conforms_to(&typed(Shape::Scalar(Element::Signed), false)));
    assert!(Value::Text("a".to_string()).conforms_to(&typed(Shape::Text, false)));
    assert!(!Value::Integer(1).conforms_to(&typed(Shape::Text, false)));

    let location = Value::List(vec![
        Value::Real { bits: one },
        Value::Integer(2),
        Value::Real { bits: 0 },
    ]);
    assert!(location.conforms_to(&typed(Shape::Sequence(Element::Float), false)));
    assert!(!location.conforms_to(&typed(Shape::Sequence(Element::Signed), false)));
    assert!(Value::List(Vec::new()).conforms_to(&typed(Shape::Sequence(Element::Bool), false)));
    assert!(!Value::Integer(1).conforms_to(&typed(Shape::Sequence(Element::Signed), false)));
    assert!(Value::List(vec![Value::Bool(true)])
        .conforms_to(&typed(Shape::Slice(Element::Bool), false)));

    let object = typed(Shape::Object("Scene".to_string()), false);
    assert!(reference(12).conforms_to(&object));
    assert!(reference(12).conforms_to(&typed(Shape::Handle, false)));
    assert!(!Value::Integer(12).conforms_to(&object));
    assert!(!Value::Null.conforms_to(&object));
    assert!(Value::Null.conforms_to(&typed(Shape::Object("Scene".to_string()), true)));
}
