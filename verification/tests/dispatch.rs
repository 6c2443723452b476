use wolfram_library_link::codec::{NativeValue, RawArgument, ValueType};
use wolfram_library_link::dispatch::{decode_args, decode_expr_args, expr_arg_list};
use wolfram_library_link::expr::Expr;
use wolfram_library_link::failure::{
    argument_shape_failure, translate_channel_outcome, translate_native_outcome, CallOutcome,
    StatusCode,
};

#[test]
fn decode_args_decodes_a_full_row() {
    let args = vec![
        RawArgument::Boolean(1),
        RawArgument::Integer(-3),
        RawArgument::Text(String::from("abc")),
    ];
    let declared = vec![ValueType::Boolean, ValueType::Integer, ValueType::Text];
    let values = decode_args(args, &declared).unwrap();
    assert_eq!(
        values,
        vec![
            NativeValue::Boolean(true),
            NativeValue::Integer(-3),
            NativeValue::Text(String::from("abc")),
        ]
    );
}

#[test]
fn decode_args_rejects_a_count_mismatch() {
    let args = vec![RawArgument::Integer(1)];
    let declared = vec![ValueType::Integer, ValueType::Integer];
    assert_eq!(decode_args(args, &declared), Err(StatusCode::TypeError));
    let declared: Vec<ValueType> = vec![];
    let args = vec![RawArgument::Integer(1)];
    assert_eq!(decode_args(args, &declared), Err(StatusCode::TypeError));
}

// The whole fixed-signature flow: decode the slots, run the function,
// encode the result into the slot with a success status.
#[test]
fn fixed_signature_call_end_to_end() {
    let args = vec![RawArgument::Integer(4), RawArgument::Integer(8)];
    let declared = vec![ValueType::Integer, ValueType::Integer];
    let values = decode_args(args, &declared).unwrap();
    let sum = match (&values[0], &values[1]) {
        (NativeValue::Integer(a), NativeValue::Integer(b)) => NativeValue::Integer(a + b),
        other => panic!("unexpected decoded values {:?}", other),
    };
    let (status, slot) = translate_native_outcome(CallOutcome::Completed(sum));
    assert_eq!(status, StatusCode::Success);
    assert_eq!(slot, Some(RawArgument::Integer(12)));
}

// The whole channel-mode flow: decode the argument list, run the
// function, and wrap its result as the one reply expression; a shape
// mismatch is answered with an ArgumentShape failure instead.
#[test]
fn channel_mode_call_end_to_end() {
    let square = |args_expr: Expr| -> Expr {
        match decode_expr_args(args_expr, &vec![ValueType::Integer]) {
            Ok(values) => match &values[0] {
                NativeValue::Integer(x) => translate_channel_outcome(CallOutcome::Completed(
                    Expr::integer(x * x),
                )),
                other => panic!("unexpected decoded value {:?}", other),
            },
            Err(message) => argument_shape_failure(message),
        }
    };

    let reply = square(Expr::apply("System`List", vec![Expr::integer(6)]));
    assert_eq!(reply, Expr::integer(36));

    let reply = square(Expr::apply("System`List", vec![Expr::text("six")]));
    let expected = Expr::apply(
        "System`Failure",
        vec![
            Expr::text("ArgumentShape"),
            Expr::apply(
                "System`Association",
                vec![Expr::apply(
                    "System`Rule",
                    vec![
                        Expr::text("Message"),
                        Expr::text("argument does not match its declared parameter type"),
                    ],
                )],
            ),
        ],
    );
    assert_eq!(reply, expected);
}

#[test]
fn expr_arg_list_takes_the_list_apart() {
    let args_expr = Expr::apply(
        "System`List",
        vec![Expr::integer(1), Expr::text("two")],
    );
    let args = expr_arg_list(args_expr).unwrap();
    assert_eq!(args, vec![Expr::integer(1), Expr::text("two")]);
}

#[test]
fn expr_arg_list_requires_a_list_head() {
    let args_expr = Expr::apply("System`Plus", vec![Expr::integer(1)]);
    assert_eq!(
        expr_arg_list(args_expr),
        Err(String::from("argument expression does not have head List"))
    );
    assert_eq!(
        expr_arg_list(Expr::integer(9)),
        Err(String::from("argument expression does not have head List"))
    );
}

#[test]
fn decode_expr_args_decodes_each_declared_type() {
    let args_expr = Expr::apply(
        "System`List",
        vec![
            Expr::symbol("System`True"),
            Expr::symbol("System`False"),
            Expr::integer(5),
            Expr::real_from_bits(0x3FF0_0000_0000_0000),
            Expr::text("name"),
            Expr::apply("Global`f", vec![Expr::integer(1)]),
        ],
    );
    let declared = vec![
        ValueType::Boolean,
        ValueType::Boolean,
        ValueType::Integer,
        ValueType::Real,
        ValueType::Text,
        ValueType::Expression,
    ];
    let values = decode_expr_args(args_expr, &declared).unwrap();
    assert_eq!(
        values,
        vec![
            NativeValue::Boolean(true),
            NativeValue::Boolean(false),
            NativeValue::Integer(5),
            NativeValue::Real(0x3FF0_0000_0000_0000),
            NativeValue::Text(String::from("name")),
            NativeValue::Expression(Expr::apply("Global`f", vec![Expr::integer(1)])),
        ]
    );
}

#[test]
fn decode_expr_args_reports_each_shape_mismatch() {
    // Not a List-headed expression.
    assert_eq!(
        decode_expr_args(Expr::integer(1), &vec![ValueType::Integer]),
        Err(String::from("argument expression does not have head List"))
    );
    // Wrong argument count.
    assert_eq!(
        decode_expr_args(
            Expr::apply("System`List", vec![Expr::integer(1)]),
            &vec![ValueType::Integer, ValueType::Integer],
        ),
        Err(String::from(
            "argument count does not match the declared parameter count"
        ))
    );
    // An argument of the wrong type.
    assert_eq!(
        decode_expr_args(
            Expr::apply("System`List", vec![Expr::text("not a number")]),
            &vec![ValueType::Integer],
        ),
        Err(String::from(
            "argument does not match its declared parameter type"
        ))
    );
    // A boolean must be one of the two boolean symbols.
    assert_eq!(
        decode_expr_args(
            Expr::apply("System`List", vec![Expr::symbol("Global`Maybe")]),
            &vec![ValueType::Boolean],
        ),
        Err(String::from(
            "argument does not match its declared parameter type"
        ))
    );
    // Complex numbers, arrays and records have no expression form here.
    for unsupported in [ValueType::Complex, ValueType::Array, ValueType::Record] {
        assert_eq!(
            decode_expr_args(
                Expr::apply("System`List", vec![Expr::integer(1)]),
                &vec![unsupported],
            ),
            Err(String::from(
                "argument does not match its declared parameter type"
            ))
        );
    }
}
