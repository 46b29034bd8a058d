//! A small lambda calculus with booleans, unsigned naturals, conditionals and
//! addition: a term model, capture-insensitive substitution, a small-step
//! evaluator with two reduction strategies (call-by-value and call-by-name),
//! a bidirectional type checker for annotated terms, and constraint-based
//! type inference (annotation, constraint generation, unification) for
//! unannotated terms.
//!
//! Every executable function carries a contract stated over mathematical
//! views of the data: terms are abstracted by [`ExpV`], types by
//! [`type_::TypeV`], environments and type substitutions by `Map`s.

use vstd::prelude::*;

pub mod combinator;
pub mod constraints;
pub mod encodings;
pub mod eval;
pub mod expr;
pub mod render;
pub mod stlc_err;
pub mod type_;
pub mod typing;
pub mod unify;
pub mod utils;

use crate::expr::add::Add;
use crate::expr::app::App;
use crate::expr::cond::Cond;
use crate::expr::lambda::Lambda;
use crate::type_::{Type, TypeV};

verus! {

/// The term language of the calculus.
///
/// Compound cases hold their children through dedicated node structs, so a
/// term is a finite tree owned exclusively by its parent.
#[derive(Debug, PartialEq, Eq)]
pub enum Exp {
    /// A variable reference; the identifier is an opaque string.
    Var(String),
    /// A lambda abstraction `λx. t`, optionally annotated with the type of
    /// its bound variable.
    Lambda(Box<Lambda>),
    /// An application `t1 t2`.
    App(Box<App>),
    /// A conditional `if t1 then t2 else t3`.
    Cond(Box<Cond>),
    /// The constant `true`.
    True,
    /// The constant `false`.
    False,
    /// A non-negative number.
    Nat(u32),
    /// The test-for-zero form `is_zero t`.
    IsZero(Box<Exp>),
    /// The successor form `incr t`.
    Incr(Box<Exp>),
    /// The saturating predecessor form `decr t`.
    Decr(Box<Exp>),
    /// A binary integer addition `t1 + t2`.
    Add(Box<Add>),
}

/// The reduction strategy used by the small-step evaluator.
#[derive(Clone, Copy, Debug, PartialEq, Eq, Structural)]
pub enum Strategy {
    CallByValue,
    CallByName,
}

/// The mathematical abstraction of a term: the same tree with identifiers
/// abstracted to character sequences. All contracts speak of this view.
#[verifier::ext_equal]
pub enum ExpV {
    Var(Seq<char>),
    Lambda(Seq<char>, Option<TypeV>, Box<ExpV>),
    App(Box<ExpV>, Box<ExpV>),
    Cond(Box<ExpV>, Box<ExpV>, Box<ExpV>),
    True,
    False,
    Nat(nat),
    IsZero(Box<ExpV>),
    Incr(Box<ExpV>),
    Decr(Box<ExpV>),
    Add(Box<ExpV>, Box<ExpV>),
}

impl View for Exp {
    type V = ExpV;

    open spec fn view(&self) -> ExpV {
        exp_view(self)
    }
}

/// The view of a term, by structural recursion.
pub open spec fn exp_view(e: &Exp) -> ExpV
    decreases e,
{
    match e {
        Exp::Var(v) => ExpV::Var(v@),
        Exp::Lambda(l) => ExpV::Lambda(
            l.arg@,
            match &l.ty {
                Some(t) => Some(t@),
                None => None,
            },
            Box::new(exp_view(&l.exp)),
        ),
        Exp::App(a) => ExpV::App(Box::new(exp_view(&a.t1)), Box::new(exp_view(&a.t2))),
        Exp::Cond(c) => ExpV::Cond(
            Box::new(exp_view(&c.guard)),
            Box::new(exp_view(&c.thn)),
            Box::new(exp_view(&c.els)),
        ),
        Exp::True => ExpV::True,
        Exp::False => ExpV::False,
        Exp::Nat(n) => ExpV::Nat(*n as nat),
        Exp::IsZero(e1) => ExpV::IsZero(Box::new(exp_view(e1))),
        Exp::Incr(e1) => ExpV::Incr(Box::new(exp_view(e1))),
        Exp::Decr(e1) => ExpV::Decr(Box::new(exp_view(e1))),
        Exp::Add(a) => ExpV::Add(Box::new(exp_view(&a.t1)), Box::new(exp_view(&a.t2))),
    }
}

impl Clone for Exp {
    /// A deep copy whose view equals the original's.
    fn clone(&self) -> (r: Exp)
        ensures
            r@ == self@,
        decreases self,
    {
        match self {
            Exp::Var(v) => Exp::Var(v.clone()),
            Exp::Lambda(l) => {
                let ty: Option<Type> = match &l.ty {
                    Some(t) => Some(t.clone()),
                    None => None,
                };
                Exp::Lambda(Box::new(Lambda { arg: l.arg.clone(), exp: l.exp.clone(), ty }))
            },
            Exp::App(a) => Exp::App(Box::new(App { t1: a.t1.clone(), t2: a.t2.clone() })),
            Exp::Cond(c) => Exp::Cond(
                Box::new(Cond { guard: c.guard.clone(), thn: c.thn.clone(), els: c.els.clone() }),
            ),
            Exp::True => Exp::True,
            Exp::False => Exp::False,
            Exp::Nat(n) => Exp::Nat(*n),
            Exp::IsZero(e1) => Exp::IsZero(Box::new((**e1).clone())),
            Exp::Incr(e1) => Exp::Incr(Box::new((**e1).clone())),
            Exp::Decr(e1) => Exp::Decr(Box::new((**e1).clone())),
            Exp::Add(a) => Exp::Add(Box::new(Add { t1: a.t1.clone(), t2: a.t2.clone() })),
        }
    }
}

} // verus!
