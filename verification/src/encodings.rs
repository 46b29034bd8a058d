//! Hand-built encodings of small example terms, and short prose answers
//! about the constructor surface.

use vstd::prelude::*;

use crate::expr::app::App;
use crate::expr::cond::Cond;
use crate::expr::incr::Incr;
use crate::expr::lambda::Lambda;
use crate::expr::var::Var;
use crate::{Exp, ExpV};

verus! {

/// The encoding `λx. x`.
pub struct Exp1;

impl Exp1 {
    /// Builds `λx. x`.
    pub fn new() -> (r: Exp)
        ensures
            r@ == ExpV::Lambda("x"@, None, Box::new(ExpV::Var("x"@))),
    {
        Lambda::build("x", Var::build("x"))
    }
}

/// The encoding `λx. incr x`.
pub struct Exp2;

impl Exp2 {
    /// Builds `λx. incr x`.
    pub fn new() -> (r: Exp)
        ensures
            r@ == ExpV::Lambda("x"@, None, Box::new(ExpV::Incr(Box::new(ExpV::Var("x"@))))),
    {
        Lambda::build("x", Incr::build(Var::build("x")))
    }
}

/// The encoding `(λx. x) ((λy. y) (λz. z))`.
pub struct Exp3;

impl Exp3 {
    /// Builds `(λx. x) ((λy. y) (λz. z))`.
    pub fn new() -> (r: Exp)
        ensures
            r@ == ExpV::App(
                Box::new(ExpV::Lambda("x"@, None, Box::new(ExpV::Var("x"@)))),
                Box::new(
                    ExpV::App(
                        Box::new(ExpV::Lambda("y"@, None, Box::new(ExpV::Var("y"@)))),
                        Box::new(ExpV::Lambda("z"@, None, Box::new(ExpV::Var("z"@)))),
                    ),
                ),
            ),
    {
        App::build(
            Lambda::build("x", Var::build("x")),
            App::build(
                Lambda::build("y", Var::build("y")),
                Lambda::build("z", Var::build("z")),
            ),
        )
    }
}

/// The encoding `((λx. x) (λy. if y then false else true)) true`.
pub struct Exp4;

impl Exp4 {
    /// Builds `((λx. x) (λy. if y then false else true)) true`.
    pub fn new() -> (r: Exp)
        ensures
            r@ == ExpV::App(
                Box::new(
                    ExpV::App(
                        Box::new(ExpV::Lambda("x"@, None, Box::new(ExpV::Var("x"@)))),
                        Box::new(
                            ExpV::Lambda(
                                "y"@,
                                None,
                                Box::new(
                                    ExpV::Cond(
                                        Box::new(ExpV::Var("y"@)),
                                        Box::new(ExpV::False),
                                        Box::new(ExpV::True),
                                    ),
                                ),
                            ),
                        ),
                    ),
                ),
                Box::new(ExpV::True),
            ),
    {
        App::build(
            App::build(
                Lambda::build("x", Var::build("x")),
                Lambda::build("y", Cond::build(Var::build("y"), Exp::False, Exp::True)),
            ),
            Exp::True,
        )
    }
}

/// The encoding `(λx. x x) (λx. x x)`: the omega combinator.
pub struct Exp5;

impl Exp5 {
    /// Builds `(λx. x x) (λx. x x)`.
    pub fn new() -> (r: Exp)
        ensures
            r@ == crate::eval::spec_omega(),
    {
        let e = Lambda::build("x", App::build(Var::build("x"), Var::build("x")));
        App::build(e.clone(), e)
    }
}

/// Short prose answers on the constructor surface.
pub struct OpenQuestions;

impl OpenQuestions {
    /// On the constructor shorthand: why each syntactic form offers a
    /// `build` helper beside its bare node constructor.
    pub fn q1() -> (r: &'static str)
        ensures
            r@ == "the build helpers hide the boxing that every compound node needs"@,
    {
        "the build helpers hide the boxing that every compound node needs"
    }

    /// On variables against numbers: why variable references carry a name
    /// while numbers carry their value directly.
    pub fn q2() -> (r: &'static str)
        ensures
            r@ == "a variable stands for a binding and is compared by name; a number is already a value"@,
    {
        "a variable stands for a binding and is compared by name; a number is already a value"
    }
}

/// Validity judgements on three small expressions, each with a short
/// explanation. An empty explanation means the judgement speaks for
/// itself: all three fail to reduce to a value.
pub struct ValidExpressions;

impl ValidExpressions {
    /// `incr (λx. x)`: invalid, since `incr` only steps on numbers.
    pub fn q1() -> (r: (bool, &'static str))
        ensures
            r.0 == false,
            r.1@ == Seq::<char>::empty(),
    {
        proof {
            reveal_strlit("");
        }
        (false, "")
    }

    /// `true false`: invalid, since `true` is a value that is not an
    /// abstraction, so the application is stuck.
    pub fn q2() -> (r: (bool, &'static str))
        ensures
            r.0 == false,
            r.1@ == Seq::<char>::empty(),
    {
        proof {
            reveal_strlit("");
        }
        (false, "")
    }

    /// `if 1 then true else false`: invalid, since the test is a number,
    /// not a boolean.
    pub fn q3() -> (r: (bool, &'static str))
        ensures
            r.0 == false,
            r.1@ == Seq::<char>::empty(),
    {
        proof {
            reveal_strlit("");
        }
        (false, "")
    }
}

} // verus!
