//! Argument-list decoding for the two entry-point forms.
//!
//! A fixed-signature entry point receives a row of raw slots and a
//! declared parameter list; [`decode_args`] checks the count and decodes
//! the row slot by slot.  A channel-mode entry point receives its whole
//! argument list as one `List`-headed expression; [`expr_arg_list`] hands
//! the raw argument expressions to the function, and [`decode_expr_args`]
//! decodes them against a declared parameter list, reporting any shape
//! mismatch with a description the caller wraps into an `ArgumentShape`
//! failure object.

use vstd::prelude::*;

use crate::codec::{decode, decode_model, raw_tag, NativeValue, RawArgument, ValueType};
use crate::expr::{headed_by, models, Expr, ExprModel};
use crate::failure::StatusCode;

verus! {

broadcast use vstd::std_specs::vec::group_vec_axioms;

/// The parts of an applied expression; an atom has none.
pub open spec fn expr_parts(e: ExprModel) -> Seq<ExprModel> {
    match e {
        ExprModel::Normal(parts) => parts,
        _ => Seq::empty(),
    }
}

/// Decodes the raw argument row of a fixed-signature call.
///
/// The host always passes as many slots as the loaded signature declared;
/// a count mismatch means the function was loaded against the wrong
/// signature and is answered with a type-error status.  The tags of the
/// slots themselves are a caller obligation, as for [`decode`].
#[verifier::loop_isolation(false)]
pub fn decode_args(args: Vec<RawArgument>, declared: &Vec<ValueType>) -> (r: Result<
    Vec<NativeValue>,
    StatusCode,
>)
    requires
        forall|i: int|
            0 <= i < args@.len() && i < declared@.len() ==> raw_tag(#[trigger] args@[i])
                == declared@[i],
    ensures
        args@.len() == declared@.len() ==> (r matches Ok(vals) && vals@.len() == args@.len()
            && forall|i: int| 0 <= i < args@.len() ==> vals@[i] == decode_model(#[trigger] args@[i])),
        args@.len() != declared@.len() ==> r == Err::<Vec<NativeValue>, StatusCode>(
            StatusCode::TypeError,
        ),
{
    if args.len() != declared.len() {
        return Err(StatusCode::TypeError);
    }
    let ghost all = args@;
    let mut remaining = args;
    let mut vals: Vec<NativeValue> = Vec::new();
    let mut i: usize = 0;
    while remaining.len() > 0
        invariant
            all.len() == declared@.len(),
            forall|k: int| 0 <= k < all.len() ==> raw_tag(#[trigger] all[k]) == declared@[k],
            i + remaining@.len() == all.len(),
            remaining@ == all.subrange(i as int, all.len() as int),
            vals@.len() == i,
            forall|k: int| 0 <= k < i ==> vals@[k] == decode_model(#[trigger] all[k]),
        decreases remaining@.len(),
    {
        proof {
            assert(all.subrange(i as int, all.len() as int)[0] == all[i as int]);
        }
        let slot = remaining.remove(0);
        vals.push(decode(slot, declared[i]));
        proof {
            assert(remaining@ =~= all.subrange(i + 1, all.len() as int));
        }
        i += 1;
    }
    Ok(vals)
}

/// Whether an expression decodes to a native value of the declared scalar
/// type: booleans are the two boolean symbols, integers, reals and
/// strings are their atoms, and an expression-typed parameter binds any
/// expression.  Complex numbers, arrays and records have no expression
/// form here.
pub open spec fn scalar_matches(e: ExprModel, t: ValueType) -> bool {
    match t {
        ValueType::Boolean => e == ExprModel::Symbol("System`True"@) || e == ExprModel::Symbol(
            "System`False"@,
        ),
        ValueType::Integer => e is Integer,
        ValueType::Real => e is Real,
        ValueType::Text => e is Text,
        ValueType::Expression => true,
        ValueType::Complex => false,
        ValueType::Array => false,
        ValueType::Record => false,
    }
}

/// The native value an argument expression decodes to under its declared
/// type.
pub open spec fn decoded_scalar(v: NativeValue, e: ExprModel, t: ValueType) -> bool {
    match t {
        ValueType::Boolean => v == NativeValue::Boolean(e == ExprModel::Symbol("System`True"@)),
        ValueType::Integer => (e matches ExprModel::Integer(n) && v matches NativeValue::Integer(m)
            && m as int == n),
        ValueType::Real => (e matches ExprModel::Real(b) && v == NativeValue::Real(b)),
        ValueType::Text => (e matches ExprModel::Text(s) && v matches NativeValue::Text(t2) && t2@
            == s),
        ValueType::Expression => (v matches NativeValue::Expression(x) && x@ == e),
        ValueType::Complex => false,
        ValueType::Array => false,
        ValueType::Record => false,
    }
}

/// Whether a channel-mode argument expression matches a declared
/// parameter list: a `List` head applying to one argument per declared
/// parameter, each of its declared scalar type.
pub open spec fn arg_list_matches(e: ExprModel, declared: Seq<ValueType>) -> bool {
    &&& headed_by(e, "System`List"@)
    &&& expr_parts(e).len() == declared.len() + 1
    &&& forall|i: int|
        0 <= i < declared.len() ==> scalar_matches(expr_parts(e)[i + 1], #[trigger] declared[i])
}

/// Splits the argument expression of a channel-mode call into its raw
/// argument expressions.
///
/// The host hands the arguments as one `List`-headed expression; anything
/// else is a shape mismatch, described for an `ArgumentShape` failure.
pub fn expr_arg_list(args_expr: Expr) -> (r: Result<Vec<Expr>, String>)
    ensures
        headed_by(args_expr@, "System`List"@) ==> (r matches Ok(v) && models(v@) == expr_parts(
            args_expr@,
        ).drop_first()),
        !headed_by(args_expr@, "System`List"@) ==> (r matches Err(m) && m@
            == "argument expression does not have head List"@),
{
    let ghost args_model = args_expr@;
    match args_expr {
        Expr::Normal { head, args } => {
            if head.is_symbol_named("System`List") {
                proof {
                    assert(models(args@) =~= expr_parts(args_model).drop_first());
                }
                Ok(args)
            } else {
                Err("argument expression does not have head List".to_owned())
            }
        },
        _ => Err("argument expression does not have head List".to_owned()),
    }
}

/// Decodes the argument expression of a channel-mode call against a
/// declared parameter list.
///
/// On success every argument is decoded to its declared scalar type; any
/// mismatch is described in the error, which the caller wraps into an
/// `ArgumentShape` failure object in place of a normal reply.
#[verifier::loop_isolation(false)]
pub fn decode_expr_args(args_expr: Expr, declared: &Vec<ValueType>) -> (r: Result<
    Vec<NativeValue>,
    String,
>)
    ensures
        arg_list_matches(args_expr@, declared@) ==> (r matches Ok(vals) && vals@.len()
            == declared@.len() && forall|i: int|
            0 <= i < declared@.len() ==> decoded_scalar(
                vals@[i],
                expr_parts(args_expr@)[i + 1],
                #[trigger] declared@[i],
            )),
        !headed_by(args_expr@, "System`List"@) ==> (r matches Err(m) && m@
            == "argument expression does not have head List"@),
        (headed_by(args_expr@, "System`List"@) && expr_parts(args_expr@).len() != declared@.len()
            + 1) ==> (r matches Err(m) && m@
            == "argument count does not match the declared parameter count"@),
        (headed_by(args_expr@, "System`List"@) && expr_parts(args_expr@).len() == declared@.len()
            + 1 && !arg_list_matches(args_expr@, declared@)) ==> (r matches Err(m) && m@
            == "argument does not match its declared parameter type"@),
{
    let ghost args_model = args_expr@;
    let raw_args = match expr_arg_list(args_expr) {
        Ok(v) => v,
        Err(m) => {
            return Err(m);
        },
    };
    proof {
        crate::expr::lemma_models_index(raw_args@);
    }
    if raw_args.len() != declared.len() {
        return Err("argument count does not match the declared parameter count".to_owned());
    }
    let ghost all = raw_args@;
    let mut remaining = raw_args;
    let mut vals: Vec<NativeValue> = Vec::new();
    let mut i: usize = 0;
    while remaining.len() > 0
        invariant
            i + remaining@.len() == all.len(),
            remaining@ == all.subrange(i as int, all.len() as int),
            vals@.len() == i,
            forall|k: int|
                0 <= k < i ==> decoded_scalar(
                    vals@[k],
                    expr_parts(args_model)[k + 1],
                    #[trigger] declared@[k],
                ),
            forall|k: int|
                0 <= k < i ==> scalar_matches(expr_parts(args_model)[k + 1], #[trigger] declared@[k]),
        decreases remaining@.len(),
    {
        proof {
            assert(all.subrange(i as int, all.len() as int)[0] == all[i as int]);
        }
        let arg = remaining.remove(0);
        proof {
            assert(arg@ == models(all)[i as int]);
            assert(remaining@ =~= all.subrange(i + 1, all.len() as int));
        }
        let decoded = match declared[i] {
            ValueType::Boolean => {
                if arg.is_symbol_named("System`True") {
                    NativeValue::Boolean(true)
                } else if arg.is_symbol_named("System`False") {
                    NativeValue::Boolean(false)
                } else {
                    return Err("argument does not match its declared parameter type".to_owned());
                }
            },
            ValueType::Integer => match arg {
                Expr::Integer(n) => NativeValue::Integer(n),
                _ => {
                    return Err("argument does not match its declared parameter type".to_owned());
                },
            },
            ValueType::Real => match arg {
                Expr::Real(bits) => NativeValue::Real(bits),
                _ => {
                    return Err("argument does not match its declared parameter type".to_owned());
                },
            },
            ValueType::Text => match arg {
                Expr::Text(s) => NativeValue::Text(s),
                _ => {
                    return Err("argument does not match its declared parameter type".to_owned());
                },
            },
            ValueType::Expression => NativeValue::Expression(arg),
            ValueType::Complex => {
                return Err("argument does not match its declared parameter type".to_owned());
            },
            ValueType::Array => {
                return Err("argument does not match its declared parameter type".to_owned());
            },
            ValueType::Record => {
                return Err("argument does not match its declared parameter type".to_owned());
            },
        };
        vals.push(decoded);
        i += 1;
    }
    proof {
        assert(arg_list_matches(args_model, declared@));
    }
    Ok(vals)
}

} // verus!
