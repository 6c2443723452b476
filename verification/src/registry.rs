//! The table of exported functions and the loader listing.
//!
//! The host loads each exported function by name against a declared type
//! signature.  Instead of scattering that wiring through generated entry
//! points, the library keeps one explicit registration table: every entry
//! point registers its name and descriptor here at startup, and the
//! optional loader entry point answers the host with one structured value
//! mapping every exported name to its loadable descriptor, so the host can
//! batch-load the whole library in a single round trip.

use vstd::prelude::*;

use crate::codec::ValueType;
use crate::expr::{association, association_model, Expr, ExprModel};

verus! {

broadcast use vstd::std_specs::vec::group_vec_axioms;

/// The declared return type of a fixed-signature function.
#[derive(Clone, Copy, PartialEq, Eq, Structural, Debug)]
pub enum ReturnType {
    /// No result is written to the result slot.
    Void,
    /// A result of the given value type.
    Value(ValueType),
}

/// How an exported function is loaded: with a fixed argument/return
/// signature, or as a channel-mode function that reads its arguments and
/// writes its result as expressions.
#[derive(PartialEq, Debug)]
pub enum FunctionDescriptor {
    /// A fixed-signature function over raw slots.
    Native {
        /// The declared parameter types, in order.
        params: Vec<ValueType>,
        /// The declared return type.
        ret: ReturnType,
    },
    /// A channel-mode function.
    Channel,
}

/// One exported function: its loadable name and its descriptor.
#[derive(PartialEq, Debug)]
pub struct ExportedFunction {
    /// The name the host loads the function by.
    pub name: String,
    /// How the host must load it.
    pub descriptor: FunctionDescriptor,
}

/// The registration table of all exported functions.
#[derive(PartialEq, Debug)]
pub struct ExportRegistry {
    entries: Vec<ExportedFunction>,
}

/// The expression a parameter type is declared with in the host's load
/// call.  Scalar types that the host names with a symbol use the symbol;
/// the others use the host's string form.
pub open spec fn parameter_type_model(t: ValueType) -> ExprModel {
    match t {
        ValueType::Boolean => ExprModel::Text("Boolean"@),
        ValueType::Integer => ExprModel::Symbol("System`Integer"@),
        ValueType::Real => ExprModel::Symbol("System`Real"@),
        ValueType::Complex => ExprModel::Symbol("System`Complex"@),
        ValueType::Text => ExprModel::Symbol("System`String"@),
        ValueType::Array => ExprModel::Text("NumericArray"@),
        ValueType::Record => ExprModel::Text("DataStore"@),
        ValueType::Expression => ExprModel::Text("Expression"@),
    }
}

/// The expression a return type is declared with in the host's load call.
pub open spec fn return_type_model(t: ReturnType) -> ExprModel {
    match t {
        ReturnType::Void => ExprModel::Text("Void"@),
        ReturnType::Value(v) => parameter_type_model(v),
    }
}

/// The loadable descriptor for one exported function, as the host's
/// `LibraryFunction` form: library path, name, and either the declared
/// parameter list and return type or the channel-mode marker.
pub open spec fn descriptor_model(
    lib: Seq<char>,
    name: Seq<char>,
    d: FunctionDescriptor,
) -> ExprModel {
    match d {
        FunctionDescriptor::Native { params, ret } => ExprModel::Normal(
            seq![
                ExprModel::Symbol("System`LibraryFunction"@),
                ExprModel::Text(lib),
                ExprModel::Text(name),
                ExprModel::Normal(
                    seq![ExprModel::Symbol("System`List"@)].add(
                        Seq::new(params@.len(), |i: int| parameter_type_model(params@[i])),
                    ),
                ),
                return_type_model(ret),
            ],
        ),
        FunctionDescriptor::Channel => ExprModel::Normal(
            seq![
                ExprModel::Symbol("System`LibraryFunction"@),
                ExprModel::Text(lib),
                ExprModel::Text(name),
                ExprModel::Symbol("System`LinkObject"@),
            ],
        ),
    }
}

/// The loader's answer: an association mapping every exported name to its
/// loadable descriptor, in registration order.
pub open spec fn listing_model(lib: Seq<char>, entries: Seq<ExportedFunction>) -> ExprModel {
    association_model(
        Seq::new(
            entries.len(),
            |i: int| (entries[i].name@, descriptor_model(lib, entries[i].name@, entries[i].descriptor)),
        ),
    )
}

/// The expression a parameter type is declared with in the host's load
/// call.
pub fn parameter_type_expr(t: ValueType) -> (r: Expr)
    ensures
        r@ == parameter_type_model(t),
{
    match t {
        ValueType::Boolean => Expr::text("Boolean"),
        ValueType::Integer => Expr::symbol("System`Integer"),
        ValueType::Real => Expr::symbol("System`Real"),
        ValueType::Complex => Expr::symbol("System`Complex"),
        ValueType::Text => Expr::symbol("System`String"),
        ValueType::Array => Expr::text("NumericArray"),
        ValueType::Record => Expr::text("DataStore"),
        ValueType::Expression => Expr::text("Expression"),
    }
}

/// The expression a return type is declared with in the host's load call.
pub fn return_type_expr(t: ReturnType) -> (r: Expr)
    ensures
        r@ == return_type_model(t),
{
    match t {
        ReturnType::Void => Expr::text("Void"),
        ReturnType::Value(v) => parameter_type_expr(v),
    }
}

/// The loadable descriptor for one exported function.
#[verifier::loop_isolation(false)]
pub fn descriptor_expr(library_path: &str, name: &str, d: &FunctionDescriptor) -> (r: Expr)
    ensures
        r@ == descriptor_model(library_path@, name@, *d),
{
    match d {
        FunctionDescriptor::Native { params, ret } => {
            let mut type_args: Vec<Expr> = Vec::new();
            let mut i: usize = 0;
            while i < params.len()
                invariant
                    i <= params@.len(),
                    type_args@.len() == i,
                    forall|j: int| 0 <= j < i ==> type_args@[j]@ == parameter_type_model(params@[j]),
                decreases params@.len() - i,
            {
                type_args.push(parameter_type_expr(params[i]));
                i += 1;
            }
            let ghost type_args_view = type_args@;
            let type_list = Expr::normal(Expr::symbol("System`List"), type_args);
            proof {
                crate::expr::lemma_models_index(type_args_view);
                assert(crate::expr::models(type_args_view) =~= Seq::new(
                    params@.len(),
                    |j: int| parameter_type_model(params@[j]),
                ));
            }
            let mut parts: Vec<Expr> = Vec::new();
            parts.push(Expr::text(library_path));
            parts.push(Expr::text(name));
            parts.push(type_list);
            parts.push(return_type_expr(*ret));
            let ghost parts_view = parts@;
            let r = Expr::normal(Expr::symbol("System`LibraryFunction"), parts);
            proof {
                crate::expr::lemma_models_index(parts_view);
                assert(seq![ExprModel::Symbol("System`LibraryFunction"@)].add(
                    crate::expr::models(parts_view),
                ) =~= seq![
                    ExprModel::Symbol("System`LibraryFunction"@),
                    ExprModel::Text(library_path@),
                    ExprModel::Text(name@),
                    ExprModel::Normal(
                        seq![ExprModel::Symbol("System`List"@)].add(
                            Seq::new(params@.len(), |j: int| parameter_type_model(params@[j])),
                        ),
                    ),
                    return_type_model(*ret),
                ]);
            }
            r
        },
        FunctionDescriptor::Channel => {
            let mut parts: Vec<Expr> = Vec::new();
            parts.push(Expr::text(library_path));
            parts.push(Expr::text(name));
            parts.push(Expr::symbol("System`LinkObject"));
            let ghost parts_view = parts@;
            let r = Expr::normal(Expr::symbol("System`LibraryFunction"), parts);
            proof {
                crate::expr::lemma_models_index(parts_view);
                assert(seq![ExprModel::Symbol("System`LibraryFunction"@)].add(
                    crate::expr::models(parts_view),
                ) =~= seq![
                    ExprModel::Symbol("System`LibraryFunction"@),
                    ExprModel::Text(library_path@),
                    ExprModel::Text(name@),
                    ExprModel::Symbol("System`LinkObject"@),
                ]);
            }
            r
        },
    }
}

impl ExportRegistry {
    /// The registered exports, in registration order.
    pub closed spec fn exports(self) -> Seq<ExportedFunction> {
        self.entries@
    }

    /// Whether some export is registered under this name.
    pub open spec fn has_export(self, name: Seq<char>) -> bool {
        exists|i: int| 0 <= i < self.exports().len() && (#[trigger] self.exports()[i]).name@ == name
    }

    /// Well-formedness: no two exports share a name.
    pub open spec fn wf(self) -> bool {
        forall|i: int, j: int|
            0 <= i < j < self.exports().len() ==> (#[trigger] self.exports()[i]).name@ != (
            #[trigger] self.exports()[j]).name@
    }

    /// A new, empty registration table.
    pub fn new() -> (r: ExportRegistry)
        ensures
            r.wf(),
            r.exports() == Seq::<ExportedFunction>::empty(),
    {
        ExportRegistry { entries: Vec::new() }
    }

    /// The number of registered exports.
    pub fn len(&self) -> (r: usize)
        ensures
            r == self.exports().len(),
    {
        self.entries.len()
    }

    /// The export at `index`, in registration order.
    pub fn export_at(&self, index: usize) -> (r: &ExportedFunction)
        requires
            index < self.exports().len(),
        ensures
            *r == self.exports()[index as int],
    {
        &self.entries[index]
    }

    /// Whether some export is registered under this name.
    #[verifier::loop_isolation(false)]
    pub fn is_registered(&self, name: &str) -> (r: bool)
        ensures
            r == self.has_export(name@),
    {
        let wanted = name.to_owned();
        let mut i: usize = 0;
        while i < self.entries.len()
            invariant
                i <= self.exports().len(),
                forall|j: int| 0 <= j < i ==> (#[trigger] self.exports()[j]).name@ != name@,
            decreases self.exports().len() - i,
        {
            if self.entries[i].name == wanted {
                return true;
            }
            i += 1;
        }
        false
    }

    /// Registers an export under a fresh name.
    ///
    /// Exported symbol names must be distinct, so a name already taken is
    /// refused and the table is left unchanged.
    pub fn register(&mut self, name: String, descriptor: FunctionDescriptor) -> (r: bool)
        requires
            old(self).wf(),
        ensures
            final(self).wf(),
            r == !old(self).has_export(name@),
            r ==> final(self).exports() == old(self).exports().push(
                ExportedFunction { name, descriptor },
            ),
            !r ==> final(self).exports() == old(self).exports(),
    {
        if self.is_registered(name.as_str()) {
            false
        } else {
            let ghost pre = self.exports();
            self.entries.push(ExportedFunction { name, descriptor });
            proof {
                assert forall|i: int, j: int| 0 <= i < j < self.exports().len() implies (
                #[trigger] self.exports()[i]).name@ != (#[trigger] self.exports()[j]).name@ by {
                    if j == pre.len() {
                        assert(self.exports()[i] == pre[i]);
                    }
                }
            }
            true
        }
    }

    /// The loader's answer for this table: an association mapping every
    /// exported name to its loadable descriptor, in registration order.
    ///
    /// `library_path` is the path of the dynamic library the host loads
    /// the functions from.
    #[verifier::loop_isolation(false)]
    pub fn loader_listing(&self, library_path: &str) -> (r: Expr)
        ensures
            r@ == listing_model(library_path@, self.exports()),
    {
        let mut pairs: Vec<(String, Expr)> = Vec::new();
        let mut i: usize = 0;
        while i < self.entries.len()
            invariant
                i <= self.exports().len(),
                pairs@.len() == i,
                forall|j: int|
                    0 <= j < i ==> (#[trigger] pairs@[j]).0@ == self.exports()[j].name@
                        && pairs@[j].1@ == descriptor_model(
                        library_path@,
                        self.exports()[j].name@,
                        self.exports()[j].descriptor,
                    ),
            decreases self.exports().len() - i,
        {
            let entry = &self.entries[i];
            let descriptor = descriptor_expr(library_path, entry.name.as_str(), &entry.descriptor);
            pairs.push((entry.name.clone(), descriptor));
            i += 1;
        }
        let ghost pairs_view = pairs@;
        let r = association(pairs);
        proof {
            assert(Seq::new(pairs_view.len(), |j: int| (pairs_view[j].0@, pairs_view[j].1@)) =~= Seq::new(
                self.exports().len(),
                |j: int| (
                    self.exports()[j].name@,
                    descriptor_model(library_path@, self.exports()[j].name@, self.exports()[j].descriptor),
                ),
            ));
        }
        r
    }
}

} // verus!
