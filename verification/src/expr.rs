//! Symbolic expression trees.
//!
//! An expression is either an atom — a symbol, a string, an integer, or a
//! real number carried as its 64-bit pattern — or a head applied to an
//! ordered sequence of sub-expressions.  Expressions are the open-ended
//! interchange values of the channel protocol: requests, replies, failure
//! objects and the loader listing are all expressions.
//!
//! The mathematical model of an expression is [`ExprModel`].  An applied
//! expression is modelled by the sequence of its parts, whose first element
//! is the head; contracts throughout the crate are stated over this model.

use vstd::prelude::*;

verus! {

broadcast use vstd::std_specs::vec::group_vec_axioms;

/// The mathematical value of an expression.
///
/// In the `Normal` variant the sequence holds the parts of an applied
/// expression: the element at index 0 is the head, the elements after it are
/// the arguments, in order.
#[verifier::ext_equal]
pub enum ExprModel {
    /// A symbol, by its full name (context included).
    Symbol(Seq<char>),
    /// A string atom.
    Text(Seq<char>),
    /// A machine integer atom.
    Integer(int),
    /// A real number atom, as the 64-bit pattern of the host's double.
    Real(u64),
    /// A head applied to arguments: the parts, head first.
    Normal(Seq<ExprModel>),
}

/// An expression tree: an atom, or a head applied to arguments.
///
/// Real atoms carry the 64-bit pattern of the host's double; the pattern is
/// moved across the boundary unchanged, so no floating-point arithmetic
/// happens on this side of it.
#[derive(PartialEq, Debug)]
pub enum Expr {
    /// A symbol, by its full name (context included).
    Symbol(String),
    /// A string atom.
    Text(String),
    /// A machine integer atom.
    Integer(i64),
    /// A real number atom, as the 64-bit pattern of the host's double.
    Real(u64),
    /// A head applied to an ordered sequence of arguments.
    Normal {
        /// The head expression.
        head: Box<Expr>,
        /// The arguments, in order.
        args: Vec<Expr>,
    },
}

impl Expr {
    /// The model of this expression.
    pub open spec fn model(self) -> ExprModel
        decreases self,
    {
        match self {
            Expr::Symbol(s) => ExprModel::Symbol(s@),
            Expr::Text(s) => ExprModel::Text(s@),
            Expr::Integer(i) => ExprModel::Integer(i as int),
            Expr::Real(bits) => ExprModel::Real(bits),
            Expr::Normal { head, args } => ExprModel::Normal(
                seq![(*head).model()].add(models(args@)),
            ),
        }
    }
}

impl View for Expr {
    type V = ExprModel;

    open spec fn view(&self) -> ExprModel {
        (*self).model()
    }
}

/// The models of a sequence of expressions, in order.
pub open spec fn models(exprs: Seq<Expr>) -> Seq<ExprModel>
    decreases exprs,
{
    if exprs.len() == 0 {
        Seq::empty()
    } else {
        seq![exprs[0].model()].add(models(exprs.drop_first()))
    }
}

/// `models` maps a sequence of expressions pointwise.
pub proof fn lemma_models_index(exprs: Seq<Expr>)
    ensures
        models(exprs).len() == exprs.len(),
        forall|i: int| 0 <= i < exprs.len() ==> models(exprs)[i] == exprs[i]@,
    decreases exprs,
{
    if exprs.len() > 0 {
        lemma_models_index(exprs.drop_first());
        assert forall|i: int| 0 <= i < exprs.len() implies models(exprs)[i] == exprs[i]@ by {
            if i > 0 {
                assert(models(exprs)[i] == models(exprs.drop_first())[i - 1]);
                assert(exprs.drop_first()[i - 1] == exprs[i]);
            }
        }
    }
}

impl Expr {
    /// The symbol with the given full name.
    pub fn symbol(name: &str) -> (r: Expr)
        ensures
            r@ == ExprModel::Symbol(name@),
    {
        Expr::Symbol(name.to_owned())
    }

    /// The string atom with the given contents.
    pub fn text(contents: &str) -> (r: Expr)
        ensures
            r@ == ExprModel::Text(contents@),
    {
        Expr::Text(contents.to_owned())
    }

    /// The integer atom with the given value.
    pub fn integer(value: i64) -> (r: Expr)
        ensures
            r@ == ExprModel::Integer(value as int),
    {
        Expr::Integer(value)
    }

    /// The real atom with the given 64-bit pattern.
    pub fn real_from_bits(bits: u64) -> (r: Expr)
        ensures
            r@ == ExprModel::Real(bits),
    {
        Expr::Real(bits)
    }

    /// The given head applied to the given arguments.
    pub fn normal(head: Expr, args: Vec<Expr>) -> (r: Expr)
        ensures
            r@ == ExprModel::Normal(seq![head@].add(models(args@))),
    {
        Expr::Normal { head: Box::new(head), args }
    }

    /// The symbol with the given name, applied to the given arguments.
    pub fn apply(head_name: &str, args: Vec<Expr>) -> (r: Expr)
        ensures
            r@ == ExprModel::Normal(seq![ExprModel::Symbol(head_name@)].add(models(args@))),
    {
        Expr::normal(Expr::symbol(head_name), args)
    }

    /// Whether this expression is the symbol with the given full name.
    pub fn is_symbol_named(&self, name: &str) -> (r: bool)
        ensures
            r == (self@ == ExprModel::Symbol(name@)),
    {
        match self {
            Expr::Symbol(s) => {
                let other = name.to_owned();
                *s == other
            },
            _ => false,
        }
    }

    /// A structurally equal copy of this expression.
    #[verifier::loop_isolation(false)]
    pub fn duplicate(&self) -> (r: Expr)
        ensures
            r@ == self@,
        decreases self,
    {
        match self {
            Expr::Symbol(s) => Expr::Symbol(s.clone()),
            Expr::Text(s) => Expr::Text(s.clone()),
            Expr::Integer(i) => Expr::Integer(*i),
            Expr::Real(bits) => Expr::Real(*bits),
            Expr::Normal { head, args } => {
                let new_head = Box::new((**head).duplicate());
                let mut new_args: Vec<Expr> = Vec::new();
                let mut i: usize = 0;
                while i < args.len()
                    invariant
                        i <= args.len(),
                        new_args@.len() == i,
                        forall|j: int| 0 <= j < i ==> new_args@[j]@ == args@[j]@,
                    decreases args.len() - i,
                {
                    new_args.push(args[i].duplicate());
                    i += 1;
                }
                proof {
                    lemma_models_index(new_args@);
                    lemma_models_index(args@);
                    assert(models(new_args@) =~= models(args@));
                }
                Expr::Normal { head: new_head, args: new_args }
            },
        }
    }
}

/// Whether `e` is an applied expression whose head is the symbol `head`.
pub open spec fn headed_by(e: ExprModel, head: Seq<char>) -> bool {
    &&& e matches ExprModel::Normal(parts)
    &&& parts.len() >= 1
    &&& parts[0] == ExprModel::Symbol(head)
}

/// A rule `key -> value`, with a string key, as an expression model.
pub open spec fn rule_model(key: Seq<char>, value: ExprModel) -> ExprModel {
    ExprModel::Normal(
        seq![
            ExprModel::Symbol("System`Rule"@),
            ExprModel::Text(key),
            value,
        ],
    )
}

/// An association of string keys to values, as an expression model: the
/// symbol `Association` applied to one rule per entry, in order.
pub open spec fn association_model(entries: Seq<(Seq<char>, ExprModel)>) -> ExprModel {
    ExprModel::Normal(
        seq![ExprModel::Symbol("System`Association"@)].add(
            Seq::new(entries.len(), |i: int| rule_model(entries[i].0, entries[i].1)),
        ),
    )
}

/// The association of the given string keys to the given values, in order.
#[verifier::loop_isolation(false)]
pub fn association(entries: Vec<(String, Expr)>) -> (r: Expr)
    ensures
        r@ == association_model(Seq::new(entries@.len(), |i: int| (entries@[i].0@, entries@[i].1@))),
{
    let ghost entry_models: Seq<(Seq<char>, ExprModel)> =
        Seq::new(entries@.len(), |i: int| (entries@[i].0@, entries@[i].1@));
    let mut rules: Vec<Expr> = Vec::new();
    let mut remaining = entries;
    let ghost all = remaining@;
    let total = remaining.len();
    let mut i: usize = 0;
    while remaining.len() > 0
        invariant
            all.len() == total,
            i + remaining@.len() == all.len(),
            remaining@ == all.subrange(i as int, all.len() as int),
            rules@.len() == i,
            forall|j: int| 0 <= j < i ==> rules@[j]@ == rule_model(all[j].0@, all[j].1@),
        decreases remaining@.len(),
    {
        proof {
            assert(all.subrange(i as int, all.len() as int)[0] == all[i as int]);
        }
        let (key, value) = remaining.remove(0);
        let ghost key_view = key@;
        let ghost value_model = value@;
        let mut rule_args: Vec<Expr> = Vec::new();
        rule_args.push(Expr::Text(key));
        rule_args.push(value);
        let ghost rule_args_view = rule_args@;
        proof {
            lemma_models_index(rule_args_view);
            assert(models(rule_args_view) =~= seq![ExprModel::Text(key_view), value_model]);
        }
        let rule = Expr::normal(Expr::symbol("System`Rule"), rule_args);
        proof {
            assert(seq![ExprModel::Symbol("System`Rule"@)].add(models(rule_args_view)) =~= seq![
                ExprModel::Symbol("System`Rule"@),
                ExprModel::Text(key_view),
                value_model,
            ]);
            assert(rule@ == rule_model(key_view, value_model));
            assert(remaining@ =~= all.subrange(i + 1, all.len() as int));
        }
        rules.push(rule);
        i += 1;
    }
    let ghost rules_view = rules@;
    let r = Expr::normal(Expr::symbol("System`Association"), rules);
    proof {
        lemma_models_index(rules_view);
        assert(models(rules_view) =~= Seq::new(
            entry_models.len(),
            |i: int| rule_model(entry_models[i].0, entry_models[i].1),
        ));
        assert(r@ =~= association_model(entry_models));
    }
    r
}

} // verus!
