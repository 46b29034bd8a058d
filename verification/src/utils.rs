//! Free-variable analysis, the value predicate, and capture-insensitive
//! substitution, together with their mathematical definitions.

use vstd::prelude::*;

use crate::expr::app::App;
use crate::expr::cond::Cond;
use crate::expr::lambda::Lambda;
use crate::{Exp, ExpV};

verus! {

/// Whether `e` is a value: a lambda abstraction, a boolean constant, or a
/// number.
pub open spec fn spec_is_value(e: ExpV) -> bool {
    match e {
        ExpV::Lambda(_, _, _) => true,
        ExpV::True => true,
        ExpV::False => true,
        ExpV::Nat(_) => true,
        _ => false,
    }
}

/// Whether `x` occurs free in `e`: at some position not enclosed by a
/// lambda binder for `x`.
pub open spec fn spec_appears_free_in(e: ExpV, x: Seq<char>) -> bool
    decreases e,
{
    match e {
        ExpV::Var(v) => v == x,
        ExpV::Lambda(a, _, b) => a != x && spec_appears_free_in(*b, x),
        ExpV::App(t1, t2) => spec_appears_free_in(*t1, x) || spec_appears_free_in(*t2, x),
        ExpV::Cond(c, t, f) => spec_appears_free_in(*c, x) || spec_appears_free_in(*t, x)
            || spec_appears_free_in(*f, x),
        ExpV::IsZero(e1) => spec_appears_free_in(*e1, x),
        ExpV::Incr(e1) => spec_appears_free_in(*e1, x),
        ExpV::Decr(e1) => spec_appears_free_in(*e1, x),
        ExpV::Add(t1, t2) => spec_appears_free_in(*t1, x) || spec_appears_free_in(*t2, x),
        _ => false,
    }
}

/// The substitution `[x := s] e`, by structural recursion: a binder for `x`
/// stops the descent; substitution is not capture-avoiding, which the
/// closed-term / unique-binder assumption makes unnecessary.
pub open spec fn spec_substitute(e: ExpV, x: Seq<char>, s: ExpV) -> ExpV
    decreases e,
{
    match e {
        ExpV::Var(v) => if v == x {
            s
        } else {
            e
        },
        ExpV::Lambda(a, t, b) => if a == x {
            e
        } else {
            ExpV::Lambda(a, t, Box::new(spec_substitute(*b, x, s)))
        },
        ExpV::App(t1, t2) => ExpV::App(
            Box::new(spec_substitute(*t1, x, s)),
            Box::new(spec_substitute(*t2, x, s)),
        ),
        ExpV::Cond(c, t, f) => ExpV::Cond(
            Box::new(spec_substitute(*c, x, s)),
            Box::new(spec_substitute(*t, x, s)),
            Box::new(spec_substitute(*f, x, s)),
        ),
        ExpV::IsZero(e1) => ExpV::IsZero(Box::new(spec_substitute(*e1, x, s))),
        ExpV::Incr(e1) => ExpV::Incr(Box::new(spec_substitute(*e1, x, s))),
        ExpV::Decr(e1) => ExpV::Decr(Box::new(spec_substitute(*e1, x, s))),
        ExpV::Add(t1, t2) => ExpV::Add(
            Box::new(spec_substitute(*t1, x, s)),
            Box::new(spec_substitute(*t2, x, s)),
        ),
        _ => e,
    }
}

impl Exp {
    /// Whether `var` occurs free in this term.
    pub fn appears_free_in(&self, var: &str) -> (r: bool)
        ensures
            r == spec_appears_free_in(self@, var@),
    {
        let key = var.to_owned();
        self.free_in_impl(&key)
    }

    fn free_in_impl(&self, var: &String) -> (r: bool)
        ensures
            r == spec_appears_free_in(self@, var@),
        decreases self,
    {
        match self {
            Exp::Var(v) => v.eq(var),
            Exp::Lambda(l) => !l.arg.eq(var) && l.exp.free_in_impl(var),
            Exp::App(a) => a.t1.free_in_impl(var) || a.t2.free_in_impl(var),
            Exp::Cond(c) => c.guard.free_in_impl(var) || c.thn.free_in_impl(var)
                || c.els.free_in_impl(var),
            Exp::IsZero(e1) => e1.free_in_impl(var),
            Exp::Incr(e1) => e1.free_in_impl(var),
            Exp::Decr(e1) => e1.free_in_impl(var),
            Exp::Add(a) => a.t1.free_in_impl(var) || a.t2.free_in_impl(var),
            _ => false,
        }
    }

    /// Whether this term is a value.
    pub fn is_value(&self) -> (r: bool)
        ensures
            r == spec_is_value(self@),
    {
        match self {
            Exp::Lambda(_) => true,
            Exp::True => true,
            Exp::False => true,
            Exp::Nat(_) => true,
            _ => false,
        }
    }

    /// The substitution `[var := s] self`, consuming this term.
    pub fn substitute(self, var: String, s: Exp) -> (r: Exp)
        ensures
            r@ == spec_substitute(self@, var@, s@),
        decreases self,
    {
        match self {
            Exp::Var(v) => if v.eq(&var) {
                s
            } else {
                Exp::Var(v)
            },
            Exp::Lambda(l) => {
                if l.arg.eq(&var) {
                    Exp::Lambda(l)
                } else {
                    let inner = *l;
                    Exp::Lambda(
                        Box::new(
                            Lambda {
                                arg: inner.arg,
                                exp: inner.exp.substitute(var, s),
                                ty: inner.ty,
                            },
                        ),
                    )
                }
            },
            Exp::App(a) => {
                let inner = *a;
                Exp::App(
                    Box::new(
                        App {
                            t1: inner.t1.substitute(var.clone(), s.clone()),
                            t2: inner.t2.substitute(var, s),
                        },
                    ),
                )
            },
            Exp::Cond(c) => {
                let inner = *c;
                Exp::Cond(
                    Box::new(
                        Cond {
                            guard: inner.guard.substitute(var.clone(), s.clone()),
                            thn: inner.thn.substitute(var.clone(), s.clone()),
                            els: inner.els.substitute(var, s),
                        },
                    ),
                )
            },
            Exp::IsZero(e1) => Exp::IsZero(Box::new((*e1).substitute(var, s))),
            Exp::Incr(e1) => Exp::Incr(Box::new((*e1).substitute(var, s))),
            Exp::Decr(e1) => Exp::Decr(Box::new((*e1).substitute(var, s))),
            Exp::Add(a) => {
                let inner = *a;
                Exp::Add(
                    Box::new(
                        crate::expr::add::Add {
                            t1: inner.t1.substitute(var.clone(), s.clone()),
                            t2: inner.t2.substitute(var, s),
                        },
                    ),
                )
            },
            e => e,
        }
    }

    /// Whether `var` occurs free in this term.
    pub fn ref_appears_free_in(&self, var: &str) -> (r: bool)
        ensures
            r == spec_appears_free_in(self@, var@),
    {
        self.appears_free_in(var)
    }

    /// Whether this term is a value.
    pub fn ref_is_value(&self) -> (r: bool)
        ensures
            r == spec_is_value(self@),
    {
        self.is_value()
    }

    /// The substitution `[var := s] self`, consuming this term.
    pub fn ref_substitute(self, var: String, s: Exp) -> (r: Exp)
        ensures
            r@ == spec_substitute(self@, var@, s@),
    {
        self.substitute(var, s)
    }
}

/// Whether `var` occurs free in `exp`.
pub fn appears_free_in(exp: Exp, var: String) -> (r: bool)
    ensures
        r == spec_appears_free_in(exp@, var@),
{
    exp.free_in_impl(&var)
}

/// Whether `exp` is a value.
pub fn is_value(exp: Exp) -> (r: bool)
    ensures
        r == spec_is_value(exp@),
{
    exp.is_value()
}

/// The substitution `[var := s] origin`.
pub fn substitute_expr(var: String, s: Exp, origin: Exp) -> (r: Exp)
    ensures
        r@ == spec_substitute(origin@, var@, s@),
{
    origin.substitute(var, s)
}

/// Substituting the bound variable of an abstraction leaves the abstraction
/// unchanged: `[x := s] (λx. b) == λx. b`.
pub proof fn lemma_substitute_bound_var(a: Seq<char>, t: Option<crate::type_::TypeV>, b: ExpV, s: ExpV)
    ensures
        spec_substitute(ExpV::Lambda(a, t, Box::new(b)), a, s) == ExpV::Lambda(a, t, Box::new(b)),
{
}

/// Whether every occurrence of `x` in `e` lies beneath a lambda binder for
/// `x` itself.
pub open spec fn spec_all_occurrences_bound(e: ExpV, x: Seq<char>) -> bool
    decreases e,
{
    match e {
        ExpV::Var(v) => v != x,
        ExpV::Lambda(a, _, b) => a == x || spec_all_occurrences_bound(*b, x),
        ExpV::App(t1, t2) => spec_all_occurrences_bound(*t1, x) && spec_all_occurrences_bound(
            *t2,
            x,
        ),
        ExpV::Cond(c, t, f) => spec_all_occurrences_bound(*c, x) && spec_all_occurrences_bound(
            *t,
            x,
        ) && spec_all_occurrences_bound(*f, x),
        ExpV::IsZero(e1) => spec_all_occurrences_bound(*e1, x),
        ExpV::Incr(e1) => spec_all_occurrences_bound(*e1, x),
        ExpV::Decr(e1) => spec_all_occurrences_bound(*e1, x),
        ExpV::Add(t1, t2) => spec_all_occurrences_bound(*t1, x) && spec_all_occurrences_bound(
            *t2,
            x,
        ),
        _ => true,
    }
}

/// Free-variable / binder duality: when every occurrence of `x` in `e` lies
/// beneath a binder for `x`, then `x` is not free in `e`.
pub proof fn lemma_bound_occurrences_not_free(e: ExpV, x: Seq<char>)
    requires
        spec_all_occurrences_bound(e, x),
    ensures
        !spec_appears_free_in(e, x),
    decreases e,
{
    match e {
        ExpV::Lambda(a, _, b) => {
            if a != x {
                lemma_bound_occurrences_not_free(*b, x);
            }
        },
        ExpV::App(t1, t2) => {
            lemma_bound_occurrences_not_free(*t1, x);
            lemma_bound_occurrences_not_free(*t2, x);
        },
        ExpV::Cond(c, t, f) => {
            lemma_bound_occurrences_not_free(*c, x);
            lemma_bound_occurrences_not_free(*t, x);
            lemma_bound_occurrences_not_free(*f, x);
        },
        ExpV::IsZero(e1) => lemma_bound_occurrences_not_free(*e1, x),
        ExpV::Incr(e1) => lemma_bound_occurrences_not_free(*e1, x),
        ExpV::Decr(e1) => lemma_bound_occurrences_not_free(*e1, x),
        ExpV::Add(t1, t2) => {
            lemma_bound_occurrences_not_free(*t1, x);
            lemma_bound_occurrences_not_free(*t2, x);
        },
        _ => {},
    }
}

} // verus!
