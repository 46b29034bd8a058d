use stlc::encodings::OpenQuestions;
use stlc::expr::cons::Cons;
use stlc::expr::is_zero::IsZero;
use stlc::expr::lambda::Lambda;
use stlc::expr::var::Var;
use stlc::type_::tarrow::TArrow;
use stlc::type_::{Env, TyConstraint, TyConstraints, TySubst, Type};
use stlc::{Exp, Strategy};

#[test]
fn test_type_shape_predicates() {
    let v = Type::TVar(String::from("A"));
    let a = TArrow::build(Type::TInt, Type::TBool);

    assert!(v.is_var() && !v.is_arrow() && !v.is_int() && !v.is_bool());
    assert!(a.is_arrow() && !a.is_var());
    assert!(Type::TInt.is_int() && !Type::TInt.is_bool());
    assert!(Type::TBool.is_bool() && !Type::TBool.is_int());
    assert!(!Type::TDummy.is_var() && !Type::TDummy.is_arrow());
}

#[test]
fn test_constraint_accessors() {
    let c = TyConstraint::build(Type::TInt, Type::TBool);
    assert_eq!(c.left(), Type::TInt);
    assert_eq!(c.right(), Type::TBool);
}

#[test]
fn test_constraints_collection_ops() {
    let c1 = TyConstraint::build(Type::TInt, Type::TInt);
    let c2 = TyConstraint::build(Type::TBool, Type::TVar(String::from("A")));

    let first = TyConstraints::build(vec![c1.clone()]);
    let second = TyConstraints::build(vec![c2.clone()]);
    let merged = TyConstraints::merge(vec![first, second, TyConstraints::empty()]);

    assert_eq!(merged.len(), 2);
    assert!(merged.contains(&c1));
    assert!(merged.contains(&c2));
    assert!(!merged.contains(&TyConstraint::build(Type::TInt, Type::TBool)));
    assert_eq!(merged.inner_ref().len(), 2);
    assert_eq!(merged.inner(), vec![c1, c2]);
}

#[test]
fn test_env_bracketing() {
    let mut env = Env::new();
    assert_eq!(env.lookup(&String::from("x")), None);

    assert_eq!(env.insert(String::from("x"), Type::TInt), None);
    assert_eq!(env.lookup(&String::from("x")), Some(Type::TInt));

    // Re-binding returns the binding it replaces.
    assert_eq!(
        env.insert(String::from("x"), Type::TBool),
        Some(Type::TInt)
    );
    assert_eq!(env.lookup(&String::from("x")), Some(Type::TBool));

    assert_eq!(env.remove(String::from("x")), Some(Type::TBool));
    assert_eq!(env.lookup(&String::from("x")), None);
    assert_eq!(env.remove(String::from("x")), None);
}

#[test]
fn test_ty_subst_ops() {
    let mut ts = TySubst::new();
    assert_eq!(ts.len(), 0);
    assert!(!ts.contains(&String::from("A")));

    ts.insert(String::from("A"), Type::TInt);
    ts.insert(String::from("B"), Type::TBool);
    assert_eq!(ts.len(), 2);
    assert!(ts.contains(&String::from("A")));
    assert_eq!(ts.lookup(&String::from("B")), Some(Type::TBool));

    assert_eq!(ts.remove(String::from("A")), Some(Type::TInt));
    assert_eq!(ts.len(), 1);

    let pairs = ts.inner();
    assert_eq!(pairs, vec![(String::from("B"), Type::TBool)]);

    let mut other = TySubst::new();
    other.replace(pairs);
    assert_eq!(other.lookup(&String::from("B")), Some(Type::TBool));
}

#[test]
fn test_cons_pairs_expressions() {
    let pair = Cons::new(Exp::Nat(1), Exp::True);
    assert_eq!(pair.value, Exp::Nat(1));
    assert_eq!(pair.next, Exp::True);
}

#[test]
fn test_open_questions_are_nonempty() {
    assert!(!OpenQuestions::q1().is_empty());
    assert!(!OpenQuestions::q2().is_empty());
}

#[test]
fn test_ref_aliases_agree() {
    let e = Lambda::build("x", Var::build("x"));
    assert_eq!(e.ref_appears_free_in("x"), e.appears_free_in("x"));
    assert_eq!(e.ref_is_value(), e.is_value());
    assert!(e.ref_typed() == false);

    let s = Exp::Nat(5);
    assert_eq!(
        e.clone().ref_substitute(String::from("x"), s.clone()),
        e.clone().substitute(String::from("x"), s)
    );

    let step = IsZero::build(Exp::Nat(0));
    assert_eq!(step.clone().ref_eval_one_step_cbv().unwrap(), Exp::True);
    assert_eq!(step.clone().ref_eval_one_step_cbn().unwrap(), Exp::True);
    assert_eq!(
        step.clone()
            .ref_eval_multi_step(1, Strategy::CallByValue)
            .unwrap(),
        Exp::True
    );
    let (v, n) = step.ref_eval_to_normal_form(Strategy::CallByName).unwrap();
    assert_eq!((v, n), (Exp::True, 2));

    assert!(!Exp::Nat(1).ref_is_stuck(Strategy::CallByValue));
}

#[test]
fn test_ref_type_layer_aliases() {
    let mut t = Type::TVar(String::from("A"));
    let mut ts = TySubst::new();
    ts.insert(String::from("A"), Type::TInt);
    t.ref_apply_ty_subst(&ts);
    assert_eq!(t, Type::TInt);

    let composed = TySubst::ref_compose(TySubst::new(), ts);
    assert_eq!(composed.lookup(&String::from("A")), Some(Type::TInt));

    let c = vec![TyConstraint::build(
        Type::TVar(String::from("A")),
        Type::TBool,
    )];
    let solved = Type::ref_unify(c).unwrap();
    assert_eq!(solved.lookup(&String::from("A")), Some(Type::TBool));
}

#[test]
fn test_ref_typing_aliases() {
    let mut e = Lambda::build("x", Var::build("x"));
    assert!(!e.ref_typed());
    let n = e.ref_annotate_term();
    assert_eq!(n, 1);
    assert!(e.ref_typed());

    let annotated = Lambda::build_with_type("x", Var::build("x"), Type::TInt);
    assert!(annotated.ref_ty_check(TArrow::build(Type::TInt, Type::TInt)));

    let mut env = Env::new();
    let (n2, t, c) = annotated.ref_infer_constraints(&mut env, 0).unwrap();
    assert_eq!(n2, 0);
    assert_eq!(t, TArrow::build(Type::TInt, Type::TInt));
    assert_eq!(c.len(), 0);

    let untyped = Lambda::build("x", Var::build("x"));
    let inferred = untyped.ref_ty_infer_c().unwrap();
    assert_eq!(
        inferred,
        TArrow::build(
            Type::TVar(String::from("X0")),
            Type::TVar(String::from("X0"))
        )
    );
}
