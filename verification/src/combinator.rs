//! The fixed-point combinator bundle: a driver `Y = λF. (λx. F (x x))
//! (λx. F (x x))`, recursive payloads built on it, and their evaluation to
//! normal form.

use vstd::prelude::*;

use crate::eval::{run_matches, spec_run, EVAL_LIMIT};
use crate::utils::spec_is_value;
use crate::expr::app::App;
use crate::expr::cond::Cond;
use crate::expr::decr::Decr;
use crate::expr::incr::Incr;
use crate::expr::is_zero::IsZero;
use crate::expr::lambda::Lambda;
use crate::expr::number::Nat;
use crate::expr::var::Var;
use crate::stlc_err::StlcError;
use crate::{Exp, ExpV, Strategy};

verus! {

/// The view of a sequence of terms.
pub open spec fn exps_view(s: Seq<Exp>) -> Seq<ExpV> {
    s.map_values(|e: Exp| e@)
}

/// The driver `λF. (λx. F (x x)) (λx. F (x x))`.
pub open spec fn spec_y_driver() -> ExpV {
    let half = ExpV::Lambda(
        "x"@,
        None,
        Box::new(
            ExpV::App(
                Box::new(ExpV::Var("F"@)),
                Box::new(ExpV::App(Box::new(ExpV::Var("x"@)), Box::new(ExpV::Var("x"@)))),
            ),
        ),
    );
    ExpV::Lambda("F"@, None, Box::new(ExpV::App(Box::new(half), Box::new(half))))
}

/// The built-in `times` payload: multiplication by repeated addition over
/// `incr`, `decr` and `is_zero`.
pub open spec fn spec_times_payload() -> ExpV {
    let rec_x = ExpV::App(Box::new(ExpV::Var("rec"@)), Box::new(ExpV::Var("x"@)));
    let else_y = ExpV::Incr(
        Box::new(
            ExpV::App(
                Box::new(
                    ExpV::App(Box::new(rec_x), Box::new(ExpV::Decr(Box::new(ExpV::Var("y"@))))),
                ),
                Box::new(ExpV::Var("z"@)),
            ),
        ),
    );
    let then_y = ExpV::App(
        Box::new(ExpV::App(Box::new(rec_x), Box::new(ExpV::Var("x"@)))),
        Box::new(ExpV::Decr(Box::new(ExpV::Var("z"@)))),
    );
    let inner_cond = ExpV::Cond(
        Box::new(ExpV::IsZero(Box::new(ExpV::Var("y"@)))),
        Box::new(then_y),
        Box::new(else_y),
    );
    let body = ExpV::Cond(
        Box::new(ExpV::IsZero(Box::new(ExpV::Var("z"@)))),
        Box::new(ExpV::Nat(0)),
        Box::new(inner_cond),
    );
    ExpV::Lambda(
        "rec"@,
        None,
        Box::new(
            ExpV::Lambda(
                "x"@,
                None,
                Box::new(
                    ExpV::Lambda(
                        "y"@,
                        None,
                        Box::new(ExpV::Lambda("z"@, None, Box::new(body))),
                    ),
                ),
            ),
        ),
    )
}

/// The built-in `equal` payload: equality of two numbers by simultaneous
/// countdown.
pub open spec fn spec_equal_payload() -> ExpV {
    let x_zero = ExpV::IsZero(Box::new(ExpV::Var("x"@)));
    let y_zero = ExpV::IsZero(Box::new(ExpV::Var("y"@)));
    let guard = ExpV::Cond(Box::new(x_zero), Box::new(ExpV::True), Box::new(y_zero));
    let thn = ExpV::Cond(Box::new(x_zero), Box::new(y_zero), Box::new(ExpV::False));
    let els = ExpV::App(
        Box::new(
            ExpV::App(
                Box::new(ExpV::Var("rec"@)),
                Box::new(ExpV::Decr(Box::new(ExpV::Var("x"@)))),
            ),
        ),
        Box::new(ExpV::Decr(Box::new(ExpV::Var("y"@)))),
    );
    let body = ExpV::Cond(Box::new(guard), Box::new(thn), Box::new(els));
    ExpV::Lambda(
        "rec"@,
        None,
        Box::new(ExpV::Lambda("x"@, None, Box::new(ExpV::Lambda("y"@, None, Box::new(body))))),
    )
}

/// The application spine `((y f) i1 ... in)`.
pub open spec fn spec_build_eval(y: ExpV, f: ExpV, inputs: Seq<ExpV>) -> ExpV
    decreases inputs.len(),
{
    if inputs.len() == 0 {
        ExpV::App(Box::new(y), Box::new(f))
    } else {
        ExpV::App(
            Box::new(spec_build_eval(y, f, inputs.drop_last())),
            Box::new(inputs.last()),
        )
    }
}

/// A fixed-point combinator bundle: the driver `Y` together with a payload
/// lambda `f` that carries the recursion logic.
#[derive(Debug, PartialEq, Eq)]
pub struct YCombinator {
    y: Exp,
    f: Exp,
}

impl View for YCombinator {
    type V = (ExpV, ExpV);

    closed spec fn view(&self) -> (ExpV, ExpV) {
        (self.y@, self.f@)
    }
}

impl Clone for YCombinator {
    fn clone(&self) -> (r: YCombinator)
        ensures
            r@ == self@,
    {
        YCombinator { y: self.y.clone(), f: self.f.clone() }
    }
}

impl YCombinator {
    /// The bundle of the driver `Y` and the payload `f`.
    pub fn new(f: Exp) -> (r: YCombinator)
        ensures
            r@ == (spec_y_driver(), f@),
    {
        let e = Lambda::build(
            "x",
            App::build(
                Var::build("F"),
                App::build(Var::build("x"), Var::build("x")),
            ),
        );
        let y = Lambda::build("F", App::build(e.clone(), e));
        YCombinator { y, f }
    }

    /// The bundle of the driver `Y` and the payload `f`.
    pub fn ref_new(f: Exp) -> (r: YCombinator)
        ensures
            r@ == (spec_y_driver(), f@),
    {
        YCombinator::new(f)
    }

    /// The `times` payload: `(Y times) x y z` multiplies by repeated
    /// addition, adding `y` and resetting it from `x` as `z` counts down.
    pub fn gen_built_in_times() -> (r: Exp)
        ensures
            r@ == spec_times_payload(),
    {
        Lambda::build(
            "rec",
            Lambda::build(
                "x",
                Lambda::build(
                    "y",
                    Lambda::build(
                        "z",
                        Cond::build(
                            IsZero::build(Var::build("z")),
                            Nat::build(0),
                            Cond::build(
                                IsZero::build(Var::build("y")),
                                App::build(
                                    App::build(
                                        App::build(Var::build("rec"), Var::build("x")),
                                        Var::build("x"),
                                    ),
                                    Decr::build(Var::build("z")),
                                ),
                                Incr::build(
                                    App::build(
                                        App::build(
                                            App::build(Var::build("rec"), Var::build("x")),
                                            Decr::build(Var::build("y")),
                                        ),
                                        Var::build("z"),
                                    ),
                                ),
                            ),
                        ),
                    ),
                ),
            ),
        )
    }

    /// The `times` payload.
    pub fn ref_gen_built_in_times() -> (r: Exp)
        ensures
            r@ == spec_times_payload(),
    {
        YCombinator::gen_built_in_times()
    }

    /// The `equal` payload: `(Y equal) x y` decides equality of two
    /// numbers by counting both down together.
    pub fn ref_gen_built_in_equal() -> (r: Exp)
        ensures
            r@ == spec_equal_payload(),
    {
        Lambda::build(
            "rec",
            Lambda::build(
                "x",
                Lambda::build(
                    "y",
                    Cond::build(
                        Cond::build(
                            IsZero::build(Var::build("x")),
                            Exp::True,
                            IsZero::build(Var::build("y")),
                        ),
                        Cond::build(
                            IsZero::build(Var::build("x")),
                            IsZero::build(Var::build("y")),
                            Exp::False,
                        ),
                        App::build(
                            App::build(Var::build("rec"), Decr::build(Var::build("x"))),
                            Decr::build(Var::build("y")),
                        ),
                    ),
                ),
            ),
        )
    }

    /// The application spine `((Y f) i1 ... in)` over the given inputs.
    #[verifier::loop_isolation(false)]
    fn build_eval_expr(&self, inputs: Vec<Exp>) -> (r: Exp)
        ensures
            r@ == spec_build_eval(self@.0, self@.1, exps_view(inputs@)),
    {
        let ghost all = exps_view(inputs@);
        let mut e = App::build(self.y.clone(), self.f.clone());
        let mut rest = inputs;
        let n = rest.len();
        proof {
            assert(all.take(0) =~= Seq::<ExpV>::empty());
            assert(exps_view(rest@).take(0) =~= Seq::<ExpV>::empty());
            assert(all.len() == n as nat);
        }
        let mut k: usize = 0;
        while rest.len() > 0
            invariant
                k + rest@.len() == all.len(),
                exps_view(rest@) =~= all.skip(k as int),
                e@ == spec_build_eval(self@.0, self@.1, all.take(k as int)),
            decreases rest@.len(),
        {
            let ghost before = rest@;
            let input = rest.remove(0);
            e = App::build(e, input);
            k = k + 1;
            proof {
                assert(exps_view(before)[0] == before[0]@);
                assert(exps_view(before.remove(0)) =~= exps_view(before).drop_first());
                assert(exps_view(rest@) =~= all.skip(k as int));
                assert(all.take(k as int).drop_last() =~= all.take(k - 1));
                assert(all.take(k as int).last() == all[k - 1]);
                assert(input@ == all[k - 1]);
            }
        }
        proof {
            assert(all.take(k as int) =~= all);
        }
        e
    }

    /// Evaluates `((Y f) i1 ... in)` to normal form under `strategy`.
    pub fn eval(self, inputs: Vec<Exp>, strategy: Strategy) -> (r: Result<
        (Exp, u32),
        StlcError,
    >)
        ensures
            run_matches(
                r,
                spec_run(
                    spec_build_eval(self@.0, self@.1, exps_view(inputs@)),
                    strategy,
                    1,
                    EVAL_LIMIT as nat,
                ),
            ),
            r is Ok ==> spec_is_value(r->Ok_0.0@),
    {
        let e = self.build_eval_expr(inputs);
        e.eval_to_normal_form(strategy)
    }

    /// Evaluates `((Y f) i1 ... in)` to normal form under `strategy`.
    pub fn ref_eval(self, inputs: Vec<Exp>, strategy: Strategy) -> (r: Result<
        (Exp, u32),
        StlcError,
    >)
        ensures
            run_matches(
                r,
                spec_run(
                    spec_build_eval(self@.0, self@.1, exps_view(inputs@)),
                    strategy,
                    1,
                    EVAL_LIMIT as nat,
                ),
            ),
            r is Ok ==> spec_is_value(r->Ok_0.0@),
    {
        self.eval(inputs, strategy)
    }
}

} // verus!
