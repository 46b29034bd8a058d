//! The small-step evaluator: one step under call-by-value or call-by-name,
//! a fixed-step driver, and normalization with a step cap.

use vstd::prelude::*;
use vstd::string::StringExecFns;

use crate::expr::app::App;
use crate::expr::cond::Cond;
use crate::expr::lambda::Lambda;
use crate::expr::var::Var;
use crate::render::spec_render;
use crate::stlc_err::{StlcError, StlcErrorV};
use crate::utils::{spec_is_value, spec_substitute};
use crate::{Exp, ExpV, Strategy};

verus! {

/// The number of driver iterations `eval_to_normal_form` performs before
/// giving up.
pub const EVAL_LIMIT: u32 = 1000000;

/// One small step of `e` under `strat`: the unique redex dictated by the
/// strategy is contracted, or an error tells why no rule applies.
pub open spec fn spec_step(e: ExpV, strat: Strategy) -> Result<ExpV, StlcErrorV>
    decreases e,
{
    match e {
        ExpV::App(t1, t2) => if strat == Strategy::CallByValue {
            match *t1 {
                ExpV::Lambda(a, _t, body) => if spec_is_value(*t2) {
                    Ok(spec_substitute(*body, a, *t2))
                } else {
                    match spec_step(*t2, strat) {
                        Ok(t2p) => Ok(ExpV::App(t1, Box::new(t2p))),
                        Err(er) => Err(er),
                    }
                },
                _ => if spec_is_value(*t1) {
                    Err(StlcErrorV::StuckExpressionCbv(spec_render(e)))
                } else {
                    match spec_step(*t1, strat) {
                        Ok(t1p) => Ok(ExpV::App(Box::new(t1p), t2)),
                        Err(er) => Err(er),
                    }
                },
            }
        } else {
            match *t1 {
                ExpV::Lambda(a, _t, body) => Ok(spec_substitute(*body, a, *t2)),
                _ => if spec_is_value(*t1) {
                    Err(StlcErrorV::StuckExpressionCbn(spec_render(e)))
                } else {
                    match spec_step(*t1, strat) {
                        Ok(t1p) => Ok(ExpV::App(Box::new(t1p), t2)),
                        Err(er) => Err(er),
                    }
                },
            }
        },
        ExpV::Cond(c, t, f) => match *c {
            ExpV::True => Ok(*t),
            ExpV::False => Ok(*f),
            _ => if spec_is_value(*c) {
                Err(
                    StlcErrorV::InvalidExpression(
                        "expect if clause not to be values other than `true` or `false, actual: "@
                            + spec_render(*c),
                    ),
                )
            } else {
                match spec_step(*c, strat) {
                    Ok(cp) => Ok(ExpV::Cond(Box::new(cp), t, f)),
                    Err(er) => Err(er),
                }
            },
        },
        ExpV::IsZero(inner) => match *inner {
            ExpV::Nat(n) => if n == 0 {
                Ok(ExpV::True)
            } else {
                Ok(ExpV::False)
            },
            _ => match spec_step(*inner, strat) {
                Ok(ip) => Ok(ExpV::IsZero(Box::new(ip))),
                Err(er) => Err(er),
            },
        },
        ExpV::Incr(inner) => match *inner {
            ExpV::Nat(n) => Ok(
                ExpV::Nat(
                    if n == u32::MAX as nat {
                        n
                    } else {
                        n + 1
                    },
                ),
            ),
            _ => match spec_step(*inner, strat) {
                Ok(ip) => Ok(ExpV::Incr(Box::new(ip))),
                Err(er) => Err(er),
            },
        },
        ExpV::Decr(inner) => match *inner {
            ExpV::Nat(n) => Ok(
                ExpV::Nat(
                    if n == 0 {
                        0
                    } else {
                        (n - 1) as nat
                    },
                ),
            ),
            _ => match spec_step(*inner, strat) {
                Ok(ip) => Ok(ExpV::Decr(Box::new(ip))),
                Err(er) => Err(er),
            },
        },
        _ => Err(StlcErrorV::InvalidExpression(spec_render(e))),
    }
}

/// Exactly `n` further steps of `e` under `strat`, erroring on any
/// intermediate state without a rule.
pub open spec fn spec_step_n(e: ExpV, n: nat, strat: Strategy) -> Result<ExpV, StlcErrorV>
    decreases n,
{
    if n == 0 {
        Ok(e)
    } else {
        match spec_step(e, strat) {
            Ok(e2) => spec_step_n(e2, (n - 1) as nat, strat),
            Err(er) => Err(er),
        }
    }
}

/// The normalization driver, beginning its `i`-th iteration on `e`: a value
/// is returned with the iteration index, a non-value is stepped, and once
/// `i` passes `bound` the step cap has been exceeded.
pub open spec fn spec_run(e: ExpV, strat: Strategy, i: nat, bound: nat) -> Result<
    (ExpV, nat),
    StlcErrorV,
>
    decreases bound + 1 - i,
{
    if i > bound {
        Err(StlcErrorV::ExceedEvalLimit("exceed evaluation limit, current expr: "@ + spec_render(e)))
    } else if spec_is_value(e) {
        Ok((e, i))
    } else {
        match spec_step(e, strat) {
            Ok(e2) => spec_run(e2, strat, i + 1, bound),
            Err(er) => Err(er),
        }
    }
}

/// Whether the executable outcome `r` is the outcome `s` states.
pub open spec fn step_matches(r: Result<Exp, StlcError>, s: Result<ExpV, StlcErrorV>) -> bool {
    match r {
        Ok(e) => s is Ok && e@ == s->Ok_0,
        Err(er) => s is Err && er@ == s->Err_0,
    }
}

/// Whether the executable normalization outcome `r` is the outcome `s`
/// states.
pub open spec fn run_matches(r: Result<(Exp, u32), StlcError>, s: Result<
    (ExpV, nat),
    StlcErrorV,
>) -> bool {
    match r {
        Ok(p) => s is Ok && p.0@ == s->Ok_0.0 && p.1 as nat == s->Ok_0.1,
        Err(er) => s is Err && er@ == s->Err_0,
    }
}

/// Renders `t1 t2` without consuming the parts.
pub(crate) fn render_app(t1: &Exp, t2: &Exp) -> (r: String)
    ensures
        r@ == spec_render(ExpV::App(Box::new(t1@), Box::new(t2@))),
{
    let mut s = "(".to_owned();
    let r1 = t1.render();
    s.append(r1.as_str());
    s.append(") (");
    let r2 = t2.render();
    s.append(r2.as_str());
    s.append(")");
    proof {
        assert(s@ =~= spec_render(ExpV::App(Box::new(t1@), Box::new(t2@))));
    }
    s
}

/// Renders the message for a conditional whose test is a non-boolean value.
pub(crate) fn render_bad_guard(g: &Exp) -> (r: String)
    ensures
        r@ == "expect if clause not to be values other than `true` or `false, actual: "@
            + spec_render(g@),
{
    let mut m = "expect if clause not to be values other than `true` or `false, actual: ".to_owned();
    let rg = g.render();
    m.append(rg.as_str());
    m
}

fn step_app_cbv(a: App) -> (r: Result<Exp, StlcError>)
    ensures
        step_matches(r, spec_step(ExpV::App(Box::new(a.t1@), Box::new(a.t2@)), Strategy::CallByValue)),
    decreases a, 1int,
{
    let App { t1, t2 } = a;
    match t1 {
        Exp::Lambda(l) => {
            if t2.is_value() {
                let lam = *l;
                Ok(lam.exp.substitute(lam.arg, t2))
            } else {
                match t2.eval_cbv() {
                    Ok(t2p) => Ok(Exp::App(Box::new(App { t1: Exp::Lambda(l), t2: t2p }))),
                    Err(er) => Err(er),
                }
            }
        },
        t1 => {
            if t1.is_value() {
                Err(StlcError::StuckExpressionCbv(render_app(&t1, &t2)))
            } else {
                match t1.eval_cbv() {
                    Ok(t1p) => Ok(Exp::App(Box::new(App { t1: t1p, t2 }))),
                    Err(er) => Err(er),
                }
            }
        },
    }
}

fn step_app_cbn(a: App) -> (r: Result<Exp, StlcError>)
    ensures
        step_matches(r, spec_step(ExpV::App(Box::new(a.t1@), Box::new(a.t2@)), Strategy::CallByName)),
    decreases a, 1int,
{
    let App { t1, t2 } = a;
    match t1 {
        Exp::Lambda(l) => {
            let lam = *l;
            Ok(lam.exp.substitute(lam.arg, t2))
        },
        t1 => {
            if t1.is_value() {
                Err(StlcError::StuckExpressionCbn(render_app(&t1, &t2)))
            } else {
                match t1.eval_cbn() {
                    Ok(t1p) => Ok(Exp::App(Box::new(App { t1: t1p, t2 }))),
                    Err(er) => Err(er),
                }
            }
        },
    }
}

fn step_cond_cbv(c: Cond) -> (r: Result<Exp, StlcError>)
    ensures
        step_matches(
            r,
            spec_step(
                ExpV::Cond(Box::new(c.guard@), Box::new(c.thn@), Box::new(c.els@)),
                Strategy::CallByValue,
            ),
        ),
    decreases c, 1int,
{
    let Cond { guard, thn, els } = c;
    match guard {
        Exp::True => Ok(thn),
        Exp::False => Ok(els),
        g => {
            if g.is_value() {
                Err(StlcError::InvalidExpression(render_bad_guard(&g)))
            } else {
                match g.eval_cbv() {
                    Ok(gp) => Ok(Exp::Cond(Box::new(Cond { guard: gp, thn, els }))),
                    Err(er) => Err(er),
                }
            }
        },
    }
}

fn step_cond_cbn(c: Cond) -> (r: Result<Exp, StlcError>)
    ensures
        step_matches(
            r,
            spec_step(
                ExpV::Cond(Box::new(c.guard@), Box::new(c.thn@), Box::new(c.els@)),
                Strategy::CallByName,
            ),
        ),
    decreases c, 1int,
{
    let Cond { guard, thn, els } = c;
    match guard {
        Exp::True => Ok(thn),
        Exp::False => Ok(els),
        g => {
            if g.is_value() {
                Err(StlcError::InvalidExpression(render_bad_guard(&g)))
            } else {
                match g.eval_cbn() {
                    Ok(gp) => Ok(Exp::Cond(Box::new(Cond { guard: gp, thn, els }))),
                    Err(er) => Err(er),
                }
            }
        },
    }
}

fn step_iszero_cbv(e1: Box<Exp>) -> (r: Result<Exp, StlcError>)
    ensures
        step_matches(r, spec_step(ExpV::IsZero(Box::new(e1@)), Strategy::CallByValue)),
    decreases e1, 1int,
{
    match *e1 {
        Exp::Nat(n) => if n == 0 {
            Ok(Exp::True)
        } else {
            Ok(Exp::False)
        },
        other => match other.eval_cbv() {
            Ok(ip) => Ok(Exp::IsZero(Box::new(ip))),
            Err(er) => Err(er),
        },
    }
}

fn step_iszero_cbn(e1: Box<Exp>) -> (r: Result<Exp, StlcError>)
    ensures
        step_matches(r, spec_step(ExpV::IsZero(Box::new(e1@)), Strategy::CallByName)),
    decreases e1, 1int,
{
    match *e1 {
        Exp::Nat(n) => if n == 0 {
            Ok(Exp::True)
        } else {
            Ok(Exp::False)
        },
        other => match other.eval_cbn() {
            Ok(ip) => Ok(Exp::IsZero(Box::new(ip))),
            Err(er) => Err(er),
        },
    }
}

fn step_incr_cbv(e1: Box<Exp>) -> (r: Result<Exp, StlcError>)
    ensures
        step_matches(r, spec_step(ExpV::Incr(Box::new(e1@)), Strategy::CallByValue)),
    decreases e1, 1int,
{
    match *e1 {
        Exp::Nat(n) => Ok(Exp::Nat(n.saturating_add(1))),
        other => match other.eval_cbv() {
            Ok(ip) => Ok(Exp::Incr(Box::new(ip))),
            Err(er) => Err(er),
        },
    }
}

fn step_incr_cbn(e1: Box<Exp>) -> (r: Result<Exp, StlcError>)
    ensures
        step_matches(r, spec_step(ExpV::Incr(Box::new(e1@)), Strategy::CallByName)),
    decreases e1, 1int,
{
    match *e1 {
        Exp::Nat(n) => Ok(Exp::Nat(n.saturating_add(1))),
        other => match other.eval_cbn() {
            Ok(ip) => Ok(Exp::Incr(Box::new(ip))),
            Err(er) => Err(er),
        },
    }
}

fn step_decr_cbv(e1: Box<Exp>) -> (r: Result<Exp, StlcError>)
    ensures
        step_matches(r, spec_step(ExpV::Decr(Box::new(e1@)), Strategy::CallByValue)),
    decreases e1, 1int,
{
    match *e1 {
        Exp::Nat(n) => Ok(Exp::Nat(n.saturating_sub(1))),
        other => match other.eval_cbv() {
            Ok(ip) => Ok(Exp::Decr(Box::new(ip))),
            Err(er) => Err(er),
        },
    }
}

fn step_decr_cbn(e1: Box<Exp>) -> (r: Result<Exp, StlcError>)
    ensures
        step_matches(r, spec_step(ExpV::Decr(Box::new(e1@)), Strategy::CallByName)),
    decreases e1, 1int,
{
    match *e1 {
        Exp::Nat(n) => Ok(Exp::Nat(n.saturating_sub(1))),
        other => match other.eval_cbn() {
            Ok(ip) => Ok(Exp::Decr(Box::new(ip))),
            Err(er) => Err(er),
        },
    }
}

impl Exp {
    /// One small step under `strategy`.
    fn eval(self, strategy: Strategy) -> (r: Result<Exp, StlcError>)
        ensures
            step_matches(r, spec_step(self@, strategy)),
    {
        match strategy {
            Strategy::CallByValue => self.eval_cbv(),
            Strategy::CallByName => self.eval_cbn(),
        }
    }

    /// One small step under call-by-value: the argument of an application
    /// is reduced to a value before the beta step.
    fn eval_cbv(self) -> (r: Result<Exp, StlcError>)
        ensures
            step_matches(r, spec_step(self@, Strategy::CallByValue)),
        decreases self, 0int,
    {
        match self {
            Exp::App(a) => step_app_cbv(*a),
            Exp::Cond(c) => step_cond_cbv(*c),
            Exp::IsZero(e1) => step_iszero_cbv(e1),
            Exp::Incr(e1) => step_incr_cbv(e1),
            Exp::Decr(e1) => step_decr_cbv(e1),
            e => {
                let m = e.render();
                Err(StlcError::InvalidExpression(m))
            },
        }
    }

    /// One small step under call-by-name: an application's beta step fires
    /// at once, without reducing the argument.
    fn eval_cbn(self) -> (r: Result<Exp, StlcError>)
        ensures
            step_matches(r, spec_step(self@, Strategy::CallByName)),
        decreases self, 0int,
    {
        match self {
            Exp::App(a) => step_app_cbn(*a),
            Exp::Cond(c) => step_cond_cbn(*c),
            Exp::IsZero(e1) => step_iszero_cbn(e1),
            Exp::Incr(e1) => step_incr_cbn(e1),
            Exp::Decr(e1) => step_decr_cbn(e1),
            e => {
                let m = e.render();
                Err(StlcError::InvalidExpression(m))
            },
        }
    }

    /// One small step under call-by-value.
    pub fn eval_one_step_cbv(self) -> (r: Result<Exp, StlcError>)
        ensures
            step_matches(r, spec_step(self@, Strategy::CallByValue)),
    {
        self.eval(Strategy::CallByValue)
    }

    /// One small step under call-by-name.
    pub fn eval_one_step_cbn(self) -> (r: Result<Exp, StlcError>)
        ensures
            step_matches(r, spec_step(self@, Strategy::CallByName)),
    {
        self.eval(Strategy::CallByName)
    }

    /// Exactly `step` small steps under `strategy`, erroring on any
    /// intermediate state without a rule.
    #[verifier::loop_isolation(false)]
    pub fn eval_multi_step(self, step: u32, strategy: Strategy) -> (r: Result<Exp, StlcError>)
        ensures
            step_matches(r, spec_step_n(self@, step as nat, strategy)),
    {
        let ghost orig = self@;
        let mut cur = self;
        let mut k: u32 = 0;
        while k < step
            invariant
                k <= step,
                spec_step_n(orig, step as nat, strategy) == spec_step_n(
                    cur@,
                    (step - k) as nat,
                    strategy,
                ),
            decreases step - k,
        {
            let ghost prev = cur@;
            match cur.eval(strategy) {
                Ok(next) => {
                    proof {
                        assert(spec_step_n(prev, (step - k) as nat, strategy) == spec_step_n(
                            next@,
                            (step - k - 1) as nat,
                            strategy,
                        ));
                    }
                    cur = next;
                },
                Err(er) => {
                    proof {
                        assert(spec_step_n(prev, (step - k) as nat, strategy) == Err::<
                            ExpV,
                            StlcErrorV,
                        >(er@));
                    }
                    return Err(er);
                },
            }
            k = k + 1;
        }
        proof {
            assert(spec_step_n(cur@, 0, strategy) == Ok::<ExpV, StlcErrorV>(cur@));
        }
        Ok(cur)
    }

    /// The step ceiling of the normalization driver.
    pub fn upper_bound(&self) -> (r: u32)
        ensures
            r == EVAL_LIMIT,
    {
        EVAL_LIMIT
    }

    /// Reduces this term to normal form under `strategy`, returning the
    /// result together with the driver's iteration count (a value is found
    /// at iteration `i` when `i - 1` steps were taken). A result is always
    /// a value.
    #[verifier::loop_isolation(false)]
    pub fn eval_to_normal_form(self, strategy: Strategy) -> (r: Result<(Exp, u32), StlcError>)
        ensures
            run_matches(r, spec_run(self@, strategy, 1, EVAL_LIMIT as nat)),
            r is Ok ==> spec_is_value(r->Ok_0.0@),
    {
        let ghost orig = self@;
        let mut cur = self;
        let mut i: u32 = 1;
        loop
            invariant
                1 <= i <= EVAL_LIMIT + 1,
                spec_run(orig, strategy, 1, EVAL_LIMIT as nat) == spec_run(
                    cur@,
                    strategy,
                    i as nat,
                    EVAL_LIMIT as nat,
                ),
            decreases EVAL_LIMIT + 1 - i,
        {
            if i > EVAL_LIMIT {
                let mut m = "exceed evaluation limit, current expr: ".to_owned();
                let rc = cur.render();
                m.append(rc.as_str());
                proof {
                    assert(m@ =~= "exceed evaluation limit, current expr: "@ + spec_render(cur@));
                }
                return Err(StlcError::ExceedEvalLimit(m));
            }
            if cur.is_value() {
                proof {
                    assert(spec_run(cur@, strategy, i as nat, EVAL_LIMIT as nat) == Ok::<
                        (ExpV, nat),
                        StlcErrorV,
                    >((cur@, i as nat)));
                }
                return Ok((cur, i));
            }
            let ghost prev = cur@;
            match cur.eval(strategy) {
                Ok(next) => {
                    proof {
                        assert(spec_run(prev, strategy, i as nat, EVAL_LIMIT as nat) == spec_run(
                            next@,
                            strategy,
                            i as nat + 1,
                            EVAL_LIMIT as nat,
                        ));
                    }
                    cur = next;
                },
                Err(er) => {
                    proof {
                        assert(spec_run(prev, strategy, i as nat, EVAL_LIMIT as nat) == Err::<
                            (ExpV, nat),
                            StlcErrorV,
                        >(er@));
                    }
                    return Err(er);
                },
            }
            i = i + 1;
        }
    }

    /// Whether this term is stuck under `strategy`: it is not a value and
    /// no operational rule applies to it. (A term that steps to itself,
    /// such as the omega combinator, is not stuck: it steps.)
    pub fn is_stuck(&self, strategy: Strategy) -> (r: bool)
        ensures
            r == (!spec_is_value(self@) && spec_step(self@, strategy) is Err),
    {
        if self.is_value() {
            false
        } else {
            match self.clone().eval(strategy) {
                Err(_) => true,
                Ok(_) => false,
            }
        }
    }

    /// Whether this term is stuck under `strategy`.
    pub fn ref_is_stuck(&self, strategy: Strategy) -> (r: bool)
        ensures
            r == (!spec_is_value(self@) && spec_step(self@, strategy) is Err),
    {
        self.is_stuck(strategy)
    }

    /// A term that grows at every step: `(λx. (x x) x) (λx. (x x) x)`.
    pub fn grow_omega() -> (r: Exp)
        ensures
            r@ == spec_grow_omega(),
    {
        let half = Lambda::build(
            "x",
            App::build(App::build(Var::build("x"), Var::build("x")), Var::build("x")),
        );
        App::build(half.clone(), half)
    }

    /// A term that grows at every step: `(λx. (x x) x) (λx. (x x) x)`.
    pub fn ref_grow_omega() -> (r: Exp)
        ensures
            r@ == spec_grow_omega(),
    {
        Exp::grow_omega()
    }

    /// Normalization of the omega combinator `(λx. x x) (λx. x x)` under
    /// both strategies: it steps to itself forever, so both runs exhaust
    /// the step cap.
    pub fn eval_omega() -> (r: (Result<(Exp, u32), StlcError>, Result<(Exp, u32), StlcError>))
        ensures
            run_matches(r.0, spec_run(spec_omega(), Strategy::CallByValue, 1, EVAL_LIMIT as nat)),
            run_matches(r.1, spec_run(spec_omega(), Strategy::CallByName, 1, EVAL_LIMIT as nat)),
            r.0 matches Err(StlcError::ExceedEvalLimit(_)),
            r.1 matches Err(StlcError::ExceedEvalLimit(_)),
    {
        let half = Lambda::build("x", App::build(Var::build("x"), Var::build("x")));
        let omega = App::build(half.clone(), half);
        proof {
            lemma_omega_steps_to_itself(Strategy::CallByValue);
            lemma_omega_steps_to_itself(Strategy::CallByName);
            lemma_fixpoint_exceeds(spec_omega(), Strategy::CallByValue, 1, EVAL_LIMIT as nat);
            lemma_fixpoint_exceeds(spec_omega(), Strategy::CallByName, 1, EVAL_LIMIT as nat);
        }
        let cbv = omega.clone().eval_to_normal_form(Strategy::CallByValue);
        let cbn = omega.eval_to_normal_form(Strategy::CallByName);
        (cbv, cbn)
    }

    /// One small step under call-by-value.
    pub fn ref_eval_one_step_cbv(self) -> (r: Result<Exp, StlcError>)
        ensures
            step_matches(r, spec_step(self@, Strategy::CallByValue)),
    {
        self.eval(Strategy::CallByValue)
    }

    /// One small step under call-by-name.
    pub fn ref_eval_one_step_cbn(self) -> (r: Result<Exp, StlcError>)
        ensures
            step_matches(r, spec_step(self@, Strategy::CallByName)),
    {
        self.eval(Strategy::CallByName)
    }

    /// Exactly `step` small steps under `strategy`.
    pub fn ref_eval_multi_step(self, step: u32, strategy: Strategy) -> (r: Result<Exp, StlcError>)
        ensures
            step_matches(r, spec_step_n(self@, step as nat, strategy)),
    {
        self.eval_multi_step(step, strategy)
    }

    /// Reduces this term to normal form under `strategy`.
    pub fn ref_eval_to_normal_form(self, strategy: Strategy) -> (r: Result<(Exp, u32), StlcError>)
        ensures
            run_matches(r, spec_run(self@, strategy, 1, EVAL_LIMIT as nat)),
            r is Ok ==> spec_is_value(r->Ok_0.0@),
    {
        self.eval_to_normal_form(strategy)
    }
}

/// One half of the omega combinator: `λx. x x`.
pub open spec fn spec_omega_half() -> ExpV {
    ExpV::Lambda(
        "x"@,
        None,
        Box::new(ExpV::App(Box::new(ExpV::Var("x"@)), Box::new(ExpV::Var("x"@)))),
    )
}

/// The omega combinator `(λx. x x) (λx. x x)`: it steps to itself forever.
pub open spec fn spec_omega() -> ExpV {
    ExpV::App(Box::new(spec_omega_half()), Box::new(spec_omega_half()))
}

/// The growing variant `(λx. (x x) x) (λx. (x x) x)`.
pub open spec fn spec_grow_omega() -> ExpV {
    let half = ExpV::Lambda(
        "x"@,
        None,
        Box::new(
            ExpV::App(
                Box::new(ExpV::App(Box::new(ExpV::Var("x"@)), Box::new(ExpV::Var("x"@)))),
                Box::new(ExpV::Var("x"@)),
            ),
        ),
    );
    ExpV::App(Box::new(half), Box::new(half))
}


/// Value preservation of normalization: whenever the driver succeeds, the
/// term it returns is a value, found at an iteration between the starting
/// index and the cap.
pub proof fn lemma_run_returns_value(e: ExpV, strat: Strategy, i: nat, bound: nat)
    requires
        spec_run(e, strat, i, bound) is Ok,
    ensures
        spec_is_value((spec_run(e, strat, i, bound)->Ok_0).0),
        i <= (spec_run(e, strat, i, bound)->Ok_0).1 <= bound,
    decreases bound + 1 - i,
{
    if i <= bound && !spec_is_value(e) {
        match spec_step(e, strat) {
            Ok(e2) => lemma_run_returns_value(e2, strat, i + 1, bound),
            Err(_) => {},
        }
    }
}

/// A term that steps to itself and is not a value exhausts the step cap:
/// the driver reports `ExceedEvalLimit` with the term itself as the
/// offender.
pub proof fn lemma_fixpoint_exceeds(e: ExpV, strat: Strategy, i: nat, bound: nat)
    requires
        !spec_is_value(e),
        spec_step(e, strat) == Ok::<ExpV, StlcErrorV>(e),
        i <= bound + 1,
    ensures
        spec_run(e, strat, i, bound) == Err::<(ExpV, nat), StlcErrorV>(
            StlcErrorV::ExceedEvalLimit("exceed evaluation limit, current expr: "@ + spec_render(e)),
        ),
    decreases bound + 1 - i,
{
    if i <= bound {
        lemma_fixpoint_exceeds(e, strat, i + 1, bound);
    }
}

/// Under either strategy, the omega combinator beta-reduces to itself in
/// one step.
pub proof fn lemma_omega_steps_to_itself(strat: Strategy)
    ensures
        spec_step(spec_omega(), strat) == Ok::<ExpV, StlcErrorV>(spec_omega()),
        !spec_is_value(spec_omega()),
{
    let half = spec_omega_half();
    let body = ExpV::App(Box::new(ExpV::Var("x"@)), Box::new(ExpV::Var("x"@)));
    assert(spec_substitute(ExpV::Var("x"@), "x"@, half) == half);
    assert(spec_substitute(body, "x"@, half) == ExpV::App(Box::new(half), Box::new(half)));
    assert(spec_step(spec_omega(), strat) == Ok::<ExpV, StlcErrorV>(spec_omega()));
}

/// The witness of strategy divergence: `(λx. λy. incr y) Ω 1`, with `Ω` the
/// omega combinator.
pub open spec fn spec_strategy_witness() -> ExpV {
    ExpV::App(
        Box::new(
            ExpV::App(
                Box::new(
                    ExpV::Lambda(
                        "x"@,
                        None,
                        Box::new(
                            ExpV::Lambda("y"@, None, Box::new(ExpV::Incr(Box::new(ExpV::Var("y"@))))),
                        ),
                    ),
                ),
                Box::new(spec_omega()),
            ),
        ),
        Box::new(ExpV::Nat(1)),
    )
}

/// Call-by-name can terminate where call-by-value does not: the witness
/// `(λx. λy. incr y) Ω 1` normalizes to `2` at the driver's fourth
/// iteration under call-by-name, while under call-by-value it steps to
/// itself forever and exhausts the step cap.
pub proof fn lemma_cbn_terminates_where_cbv_exceeds()
    ensures
        spec_run(spec_strategy_witness(), Strategy::CallByName, 1, EVAL_LIMIT as nat) == Ok::<
            (ExpV, nat),
            StlcErrorV,
        >((ExpV::Nat(2), 4)),
        spec_run(spec_strategy_witness(), Strategy::CallByValue, 1, EVAL_LIMIT as nat) matches Err(
            StlcErrorV::ExceedEvalLimit(_),
        ),
{
    reveal_strlit("x");
    reveal_strlit("y");
    assert("x"@ != "y"@) by {
        assert("x"@.len() == 1);
        assert("x"@[0] == 'x');
        assert("y"@[0] == 'y');
    }
    let w0 = spec_strategy_witness();
    let lam_y = ExpV::Lambda("y"@, None, Box::new(ExpV::Incr(Box::new(ExpV::Var("y"@)))));
    let lam_xy = ExpV::Lambda("x"@, None, Box::new(lam_y));
    let cbn = Strategy::CallByName;
    let cbv = Strategy::CallByValue;
    reveal_with_fuel(spec_substitute, 5);
    reveal_with_fuel(spec_step, 5);
    reveal_with_fuel(spec_run, 6);

    // Call-by-name: three steps to the value 2.
    assert(spec_substitute(lam_y, "x"@, spec_omega()) == lam_y);
    assert(spec_step(ExpV::App(Box::new(lam_xy), Box::new(spec_omega())), cbn) == Ok::<
        ExpV,
        StlcErrorV,
    >(lam_y));
    let w1 = ExpV::App(Box::new(lam_y), Box::new(ExpV::Nat(1)));
    assert(spec_step(w0, cbn) == Ok::<ExpV, StlcErrorV>(w1));
    let w2 = ExpV::Incr(Box::new(ExpV::Nat(1)));
    assert(spec_substitute(ExpV::Incr(Box::new(ExpV::Var("y"@))), "y"@, ExpV::Nat(1)) == w2);
    assert(spec_step(w1, cbn) == Ok::<ExpV, StlcErrorV>(w2));
    assert(spec_step(w2, cbn) == Ok::<ExpV, StlcErrorV>(ExpV::Nat(2)));
    assert(spec_run(ExpV::Nat(2), cbn, 4, EVAL_LIMIT as nat) == Ok::<(ExpV, nat), StlcErrorV>(
        (ExpV::Nat(2), 4),
    ));
    assert(spec_run(w0, cbn, 1, EVAL_LIMIT as nat) == Ok::<(ExpV, nat), StlcErrorV>(
        (ExpV::Nat(2), 4),
    ));

    // Call-by-value: the whole term steps to itself.
    lemma_omega_steps_to_itself(cbv);
    let inner = ExpV::App(Box::new(lam_xy), Box::new(spec_omega()));
    assert(spec_step(inner, cbv) == Ok::<ExpV, StlcErrorV>(inner));
    assert(spec_step(w0, cbv) == Ok::<ExpV, StlcErrorV>(w0));
    lemma_fixpoint_exceeds(w0, cbv, 1, EVAL_LIMIT as nat);
}

} // verus!
