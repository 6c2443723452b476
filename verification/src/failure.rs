//! The panic/failure translator.
//!
//! Every generated entry point runs the wrapped call under a supervisor
//! that either completes normally or observes an unwinding failure.  An
//! unwind must never cross into host code — that is undefined behaviour in
//! the host's binary interface — so the supervisor's observation is
//! translated here into a host-visible value instead: a kind-tagged
//! `Failure` expression for channel-mode calls, which can carry an in-band
//! payload, or a bare nonzero status code for fixed-signature calls, which
//! cannot.
//!
//! The supervisor itself (the catch of the unwind, the capture of the
//! message, the source location and the optional diagnostic trace, and the
//! one-time read of the environment toggle that switches the trace on)
//! lives with the host-facing shims; this module holds the decisions, which
//! are total functions of the observed outcome.

use vstd::prelude::*;

use crate::codec::{encode, encode_model, NativeValue, RawArgument};
use crate::expr::{association, headed_by, association_model, Expr, ExprModel};

verus! {

broadcast use vstd::std_specs::vec::group_vec_axioms;

/// The status code an entry point returns to the host.
#[derive(Clone, Copy, PartialEq, Eq, Structural, Debug)]
pub enum StatusCode {
    /// The call completed and the result slot is valid.
    Success,
    /// An unspecified failure.
    GenericFailure,
    /// An argument slot did not hold what its declared type promised.
    TypeError,
    /// The wrapped function failed.
    FunctionError,
}

/// Where a failure originated: a source file and a line in it.
#[derive(PartialEq, Debug)]
pub struct SourceLocation {
    /// The source file.
    pub file: String,
    /// The line within the file.
    pub line: u32,
}

/// What the supervisor captured from an unwinding failure.
#[derive(PartialEq, Debug)]
pub struct PanicCause {
    /// The failure message.
    pub message: String,
    /// Where the failure originated.
    pub location: SourceLocation,
    /// A symbolic stack trace, if the diagnostic toggle was set when the
    /// failure was caught.
    pub trace: Option<String>,
}

/// How a supervised call ended: normally, with a result, or by unwinding.
#[derive(PartialEq, Debug)]
pub enum CallOutcome<R> {
    /// The wrapped function returned this value.
    Completed(R),
    /// The wrapped function unwound; the supervisor captured this cause.
    Panicked(PanicCause),
}

/// The entries of the failure object built for a cause: message, file and
/// line always; the trace only when one was captured.
pub open spec fn panic_entries(cause: PanicCause) -> Seq<(Seq<char>, ExprModel)> {
    let base = seq![
        ("Message"@, ExprModel::Text(cause.message@)),
        ("File"@, ExprModel::Text(cause.location.file@)),
        ("Line"@, ExprModel::Integer(cause.location.line as int)),
    ];
    match cause.trace {
        Option::Some(trace) => base.push(("Backtrace"@, ExprModel::Text(trace@))),
        Option::None => base,
    }
}

/// The host-visible failure object for a cause: the symbol `Failure`
/// applied to the kind tag `"RustPanic"` and an association of the entries.
pub open spec fn panic_failure_model(cause: PanicCause) -> ExprModel {
    ExprModel::Normal(
        seq![
            ExprModel::Symbol("System`Failure"@),
            ExprModel::Text("RustPanic"@),
            association_model(panic_entries(cause)),
        ],
    )
}

/// Whether an expression is a `Failure`-headed object.
pub open spec fn is_failure(e: ExprModel) -> bool {
    headed_by(e, "System`Failure"@)
}

/// Builds the host-visible failure object for a captured cause.
pub fn failure_expr(cause: PanicCause) -> (r: Expr)
    ensures
        r@ == panic_failure_model(cause),
{
    let ghost cause_snapshot = cause;
    let PanicCause { message, location, trace } = cause;
    let mut entries: Vec<(String, Expr)> = Vec::new();
    entries.push(("Message".to_owned(), Expr::Text(message)));
    entries.push(("File".to_owned(), Expr::Text(location.file)));
    entries.push(("Line".to_owned(), Expr::integer(location.line as i64)));
    match trace {
        Option::Some(trace_text) => {
            entries.push(("Backtrace".to_owned(), Expr::Text(trace_text)));
        },
        Option::None => {},
    }
    let ghost entries_view = entries@;
    let assoc = association(entries);
    proof {
        assert(Seq::new(entries_view.len(), |i: int| (entries_view[i].0@, entries_view[i].1@))
            =~= panic_entries(cause_snapshot));
    }
    let mut parts: Vec<Expr> = Vec::new();
    parts.push(Expr::text("RustPanic"));
    parts.push(assoc);
    let ghost parts_view = parts@;
    let r = Expr::normal(Expr::symbol("System`Failure"), parts);
    proof {
        crate::expr::lemma_models_index(parts_view);
        assert(seq![ExprModel::Symbol("System`Failure"@)].add(crate::expr::models(parts_view))
            =~= seq![
                ExprModel::Symbol("System`Failure"@),
                ExprModel::Text("RustPanic"@),
                association_model(panic_entries(cause_snapshot)),
            ]);
    }
    r
}

/// The kind tag and message of the failure object built when pattern-based
/// argument decoding rejects an argument list.
pub open spec fn argument_shape_failure_model(message: Seq<char>) -> ExprModel {
    ExprModel::Normal(
        seq![
            ExprModel::Symbol("System`Failure"@),
            ExprModel::Text("ArgumentShape"@),
            association_model(seq![("Message"@, ExprModel::Text(message))]),
        ],
    )
}

/// Builds the failure object returned when an argument list does not match
/// the shape the function declared, carrying the mismatch description.
pub fn argument_shape_failure(message: String) -> (r: Expr)
    ensures
        r@ == argument_shape_failure_model(message@),
{
    let ghost message_view = message@;
    let mut entries: Vec<(String, Expr)> = Vec::new();
    entries.push(("Message".to_owned(), Expr::Text(message)));
    let ghost entries_view = entries@;
    let assoc = association(entries);
    proof {
        assert(Seq::new(entries_view.len(), |i: int| (entries_view[i].0@, entries_view[i].1@))
            =~= seq![("Message"@, ExprModel::Text(message_view))]);
    }
    let mut parts: Vec<Expr> = Vec::new();
    parts.push(Expr::text("ArgumentShape"));
    parts.push(assoc);
    let ghost parts_view = parts@;
    let r = Expr::normal(Expr::symbol("System`Failure"), parts);
    proof {
        crate::expr::lemma_models_index(parts_view);
        assert(seq![ExprModel::Symbol("System`Failure"@)].add(crate::expr::models(parts_view))
            =~= seq![
                ExprModel::Symbol("System`Failure"@),
                ExprModel::Text("ArgumentShape"@),
                association_model(seq![("Message"@, ExprModel::Text(message_view))]),
            ]);
    }
    r
}

/// The reply a channel-mode entry point sends for an outcome: the computed
/// expression when the call completed, the failure object when it unwound.
pub open spec fn channel_reply_model(outcome: CallOutcome<Expr>) -> ExprModel {
    match outcome {
        CallOutcome::Completed(e) => e@,
        CallOutcome::Panicked(cause) => panic_failure_model(cause),
    }
}

/// Translates the outcome of a supervised channel-mode call into the one
/// reply expression the host sees.
pub fn translate_channel_outcome(outcome: CallOutcome<Expr>) -> (r: Expr)
    ensures
        r@ == channel_reply_model(outcome),
{
    match outcome {
        CallOutcome::Completed(e) => e,
        CallOutcome::Panicked(cause) => failure_expr(cause),
    }
}

/// The status code a fixed-signature entry point returns for an outcome.
pub open spec fn native_status_model(outcome: CallOutcome<NativeValue>) -> StatusCode {
    match outcome {
        CallOutcome::Completed(_) => StatusCode::Success,
        CallOutcome::Panicked(_) => StatusCode::FunctionError,
    }
}

/// Translates the outcome of a supervised fixed-signature call into the
/// status code returned to the host and the value for the result slot.
///
/// A fixed-signature call has no in-band error payload: on an unwinding
/// failure the host sees only the nonzero status code, and the result slot
/// is left untouched.
pub fn translate_native_outcome(outcome: CallOutcome<NativeValue>) -> (r: (
    StatusCode,
    Option<RawArgument>,
))
    requires
        outcome matches CallOutcome::Completed(v) ==> !(v is Expression),
    ensures
        r.0 == native_status_model(outcome),
        outcome matches CallOutcome::Completed(v) ==> r.1 == Option::Some(encode_model(v)),
        outcome matches CallOutcome::Panicked(_) ==> r.1 is None,
{
    match outcome {
        CallOutcome::Completed(v) => (StatusCode::Success, Option::Some(encode(v))),
        CallOutcome::Panicked(_) => (StatusCode::FunctionError, Option::None),
    }
}

/// An unwinding failure never reaches the host as an unwind: a channel-mode
/// call answers with a `Failure`-headed object, and a fixed-signature call
/// answers with a nonzero status code and no result.
pub proof fn lemma_unwind_never_escapes(cause: PanicCause)
    ensures
        is_failure(channel_reply_model(CallOutcome::Panicked(cause))),
        native_status_model(CallOutcome::<NativeValue>::Panicked(cause)) != StatusCode::Success,
{
}

} // verus!
