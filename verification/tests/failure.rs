use wolfram_library_link::codec::{NativeValue, RawArgument};
use wolfram_library_link::expr::Expr;
use wolfram_library_link::failure::{
    argument_shape_failure, failure_expr, translate_channel_outcome, translate_native_outcome,
    CallOutcome, PanicCause, SourceLocation, StatusCode,
};

fn rule(key: &str, value: Expr) -> Expr {
    Expr::apply("System`Rule", vec![Expr::text(key), value])
}

fn cause(message: &str, trace: Option<&str>) -> PanicCause {
    PanicCause {
        message: String::from(message),
        location: SourceLocation {
            file: String::from("user/lib.rs"),
            line: 17,
        },
        trace: trace.map(String::from),
    }
}

// A channel-mode function whose body fails with "bad input" answers with a
// Failure object carrying the message and the source location.
#[test]
fn panic_becomes_failure_object_with_location() {
    let reply = translate_channel_outcome(CallOutcome::Panicked(cause("bad input", None)));
    let expected = Expr::apply(
        "System`Failure",
        vec![
            Expr::text("RustPanic"),
            Expr::apply(
                "System`Association",
                vec![
                    rule("Message", Expr::text("bad input")),
                    rule("File", Expr::text("user/lib.rs")),
                    rule("Line", Expr::integer(17)),
                ],
            ),
        ],
    );
    assert_eq!(reply, expected);
}

// With the diagnostic toggle set the supervisor captures a trace, and the
// Failure object carries it as a non-empty extra field.
#[test]
fn panic_with_trace_adds_backtrace_field() {
    let reply = translate_channel_outcome(CallOutcome::Panicked(cause(
        "bad input",
        Some("0: user::lib::run\n1: host::dispatch"),
    )));
    let expected = Expr::apply(
        "System`Failure",
        vec![
            Expr::text("RustPanic"),
            Expr::apply(
                "System`Association",
                vec![
                    rule("Message", Expr::text("bad input")),
                    rule("File", Expr::text("user/lib.rs")),
                    rule("Line", Expr::integer(17)),
                    rule(
                        "Backtrace",
                        Expr::text("0: user::lib::run\n1: host::dispatch"),
                    ),
                ],
            ),
        ],
    );
    assert_eq!(reply, expected);
}

#[test]
fn failure_expr_matches_translator_output() {
    let built = failure_expr(cause("boom", None));
    let translated = translate_channel_outcome(CallOutcome::Panicked(cause("boom", None)));
    assert_eq!(built, translated);
}

#[test]
fn completed_channel_call_passes_result_through() {
    let result = Expr::apply("System`List", vec![Expr::integer(1), Expr::integer(2)]);
    let reply = translate_channel_outcome(CallOutcome::Completed(result.duplicate()));
    assert_eq!(reply, result);
}

#[test]
fn argument_shape_failure_carries_the_description() {
    let failure = argument_shape_failure(String::from("expected 2 arguments"));
    let expected = Expr::apply(
        "System`Failure",
        vec![
            Expr::text("ArgumentShape"),
            Expr::apply(
                "System`Association",
                vec![rule("Message", Expr::text("expected 2 arguments"))],
            ),
        ],
    );
    assert_eq!(failure, expected);
}

// A fixed-signature call that unwinds answers with a nonzero status code
// and leaves the result slot untouched; a completed call answers success
// with the encoded result.
#[test]
fn native_outcome_maps_to_status_and_slot() {
    let (status, slot) = translate_native_outcome(CallOutcome::Completed(NativeValue::Integer(9)));
    assert_eq!(status, StatusCode::Success);
    assert_eq!(slot, Some(RawArgument::Integer(9)));

    let (status, slot) = translate_native_outcome(CallOutcome::Panicked(cause("bad input", None)));
    assert_eq!(status, StatusCode::FunctionError);
    assert_ne!(status, StatusCode::Success);
    assert_eq!(slot, None);
}
