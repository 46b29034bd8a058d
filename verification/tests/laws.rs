use stlc::expr::add::Add;
use stlc::expr::app::App;
use stlc::expr::cond::Cond;
use stlc::expr::incr::Incr;
use stlc::expr::lambda::Lambda;
use stlc::expr::var::Var;
use stlc::stlc_err::StlcError;
use stlc::type_::tarrow::TArrow;
use stlc::type_::{TyConstraint, TySubst, Type};
use stlc::{Exp, Strategy};

fn incr_one() -> Exp {
    // (λx. incr x) 1
    App::build(
        Lambda::build("x", Incr::build(Var::build("x"))),
        Exp::Nat(1),
    )
}

fn omega() -> Exp {
    let half = Lambda::build("x", App::build(Var::build("x"), Var::build("x")));
    App::build(half.clone(), half)
}

#[test]
fn test_normalize_returns_value_with_count() {
    // E1: both strategies reach `2` at the driver's third iteration.
    let (v, steps) = incr_one().eval_to_normal_form(Strategy::CallByValue).unwrap();
    assert_eq!(v, Exp::Nat(2));
    assert_eq!(steps, 3);
    assert!(v.is_value());

    let (v, steps) = incr_one().eval_to_normal_form(Strategy::CallByName).unwrap();
    assert_eq!(v, Exp::Nat(2));
    assert_eq!(steps, 3);
    assert!(v.is_value());
}

#[test]
fn test_strategies_agree_on_total_term() {
    // Both strategies normalize this term; the values agree.
    let e = App::build(
        Lambda::build("b", Cond::build(Var::build("b"), Exp::Nat(1), Exp::Nat(0))),
        App::build(Lambda::build("x", Var::build("x")), Exp::True),
    );
    let (v1, _) = e.clone().eval_to_normal_form(Strategy::CallByValue).unwrap();
    let (v2, _) = e.eval_to_normal_form(Strategy::CallByName).unwrap();
    assert_eq!(v1, v2);
    assert_eq!(v1, Exp::Nat(1));
}

#[test]
fn test_cbn_terminates_where_cbv_diverges() {
    // E2: (λx. λy. incr y) Ω 1.
    let e = App::build(
        App::build(
            Lambda::build(
                "x",
                Lambda::build("y", Incr::build(Var::build("y"))),
            ),
            omega(),
        ),
        Exp::Nat(1),
    );

    // Three call-by-name steps reach `2`.
    assert_eq!(
        e.clone().eval_multi_step(3, Strategy::CallByName).unwrap(),
        Exp::Nat(2)
    );
    let (v, steps) = e
        .clone()
        .eval_to_normal_form(Strategy::CallByName)
        .unwrap();
    assert_eq!(v, Exp::Nat(2));
    assert_eq!(steps, 4);

    // Call-by-value hits the step cap.
    let r = e.eval_to_normal_form(Strategy::CallByValue);
    assert!(matches!(r, Err(StlcError::ExceedEvalLimit(_))));
}

#[test]
fn test_stuck_and_invalid_errors_render_the_term() {
    let stuck = App::build(Exp::True, Exp::False);
    match stuck.eval_one_step_cbv() {
        Err(StlcError::StuckExpressionCbv(msg)) => assert_eq!(msg, "(true) (false)"),
        other => panic!("expected a cbv stuck error, got {:?}", other),
    }

    let stuck = App::build(Exp::Nat(7), Exp::True);
    match stuck.eval_one_step_cbn() {
        Err(StlcError::StuckExpressionCbn(msg)) => assert_eq!(msg, "(7) (true)"),
        other => panic!("expected a cbn stuck error, got {:?}", other),
    }

    let bad = Cond::build(Exp::Nat(3), Exp::True, Exp::False);
    match bad.eval_one_step_cbv() {
        Err(StlcError::InvalidExpression(msg)) => assert_eq!(
            msg,
            "expect if clause not to be values other than `true` or `false, actual: 3"
        ),
        other => panic!("expected an invalid-expression error, got {:?}", other),
    }

    let no_rule = Var::build("q");
    match no_rule.eval_one_step_cbn() {
        Err(StlcError::InvalidExpression(msg)) => assert_eq!(msg, "q"),
        other => panic!("expected an invalid-expression error, got {:?}", other),
    }
}

#[test]
fn test_saturating_arithmetic() {
    let top = Exp::Incr(Box::new(Exp::Nat(u32::MAX)));
    assert_eq!(top.eval_one_step_cbv().unwrap(), Exp::Nat(u32::MAX));

    let floor = Exp::Decr(Box::new(Exp::Nat(0)));
    assert_eq!(floor.eval_one_step_cbv().unwrap(), Exp::Nat(0));

    let is_zero = Exp::IsZero(Box::new(Exp::Nat(0)));
    assert_eq!(is_zero.eval_one_step_cbn().unwrap(), Exp::True);

    let is_zero = Exp::IsZero(Box::new(Exp::Nat(9)));
    assert_eq!(is_zero.eval_one_step_cbn().unwrap(), Exp::False);
}

#[test]
fn test_render_syntax() {
    let e = App::build(
        Lambda::build("x", Incr::build(Var::build("x"))),
        Exp::Nat(120),
    );
    assert_eq!(e.render(), "(λx. incr (x)) (120)");

    let c = Cond::build(
        Exp::True,
        Add::build(Exp::Nat(1), Exp::Nat(2)),
        Exp::Decr(Box::new(Exp::Nat(3))),
    );
    assert_eq!(c.render(), "if (true) then ((1) + (2)) else (decr (3))");
}

#[test]
fn test_unify_solution_solves_every_constraint() {
    // The returned substitution, applied once to each side, equates them.
    let c = vec![
        TyConstraint::build(
            TArrow::build(
                Type::TVar(String::from("A")),
                Type::TVar(String::from("B")),
            ),
            TArrow::build(Type::TInt, Type::TVar(String::from("C"))),
        ),
        TyConstraint::build(Type::TVar(String::from("C")), Type::TBool),
    ];
    let ts = Type::unify(c.clone()).unwrap();
    for cst in c {
        let mut l = cst.left();
        let mut r = cst.right();
        l.apply_ty_subst(&ts);
        r.apply_ty_subst(&ts);
        assert_eq!(l, r);
    }
}

#[test]
fn test_unify_rejects_base_mismatch() {
    let c = vec![TyConstraint::build(Type::TInt, Type::TBool)];
    assert!(Type::unify(c).is_none());

    let c = vec![TyConstraint::build(
        Type::TInt,
        TArrow::build(Type::TInt, Type::TInt),
    )];
    assert!(Type::unify(c).is_none());
}

#[test]
fn test_compose_then_apply_matches_sequential_apply() {
    // Disjoint domains: applying the composition equals applying one
    // substitution and then the other.
    let mut ts1 = TySubst::new();
    ts1.insert(String::from("A"), TArrow::build(Type::TInt, Type::TInt));
    let mut ts2 = TySubst::new();
    ts2.insert(String::from("B"), Type::TVar(String::from("A")));

    let t = TArrow::build(
        Type::TVar(String::from("B")),
        Type::TVar(String::from("A")),
    );

    let mut sequential = t.clone();
    sequential.apply_ty_subst(&ts2);
    sequential.apply_ty_subst(&ts1);

    let composed = TySubst::compose(ts1, ts2);
    let mut at_once = t;
    at_once.apply_ty_subst(&composed);

    assert_eq!(at_once, sequential);
}

#[test]
fn test_inferred_type_checks_when_instantiated() {
    // infer λx. if x then 1 + 3 else 5 : bool -> int, then check the term
    // annotated with that concrete type against it.
    let untyped = Lambda::build(
        "x",
        Cond::build(
            Var::build("x"),
            Add::build(Exp::Nat(1), Exp::Nat(3)),
            Exp::Nat(5),
        ),
    );
    let inferred = untyped.ty_infer_c().unwrap();
    assert_eq!(inferred, TArrow::build(Type::TBool, Type::TInt));

    let annotated = Lambda::build_with_type(
        "x",
        Cond::build(
            Var::build("x"),
            Add::build(Exp::Nat(1), Exp::Nat(3)),
            Exp::Nat(5),
        ),
        Type::TBool,
    );
    assert!(annotated.ty_check(inferred));
}

#[test]
fn test_upper_bound_is_the_step_cap() {
    assert_eq!(Exp::True.upper_bound(), 1000000);
}
