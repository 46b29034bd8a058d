use stlc::expr::add::Add;
use stlc::expr::cond::Cond;
use stlc::expr::lambda::Lambda;
use stlc::expr::var::Var;
use stlc::type_::tarrow::TArrow;
use stlc::type_::{TyConstraint, TySubst, Type};
use stlc::Exp;

#[test]
fn test_apply_ty_subst_basic() {
    let mut t = TArrow::build(
        Type::TVar(String::from("X0")),
        Type::TVar(String::from("X1")),
    );
    let mut ts = TySubst::new();
    ts.insert(
        String::from("X1"),
        TArrow::build(Type::TBool, Type::TBool),
    );
    ts.insert(String::from("X0"), Type::TBool);
    t.apply_ty_subst(&ts);
    let res = TArrow::build(Type::TBool, TArrow::build(Type::TBool, Type::TBool));
    assert_eq!(t, res);
}

#[test]
fn test_ty_compose_basic() {
    // [X0 -> Bool -> Bool]
    let mut ts1 = TySubst::new();
    ts1.insert(
        String::from("X0"),
        TArrow::build(Type::TBool, Type::TBool),
    );
    // [X1 -> X0]
    let mut ts2 = TySubst::new();
    ts2.insert(String::from("X1"), Type::TVar(String::from("X0")));
    // should be: [X0 -> Bool -> Bool, X1 -> Bool -> Bool]
    let composed = TySubst::compose(ts1, ts2);
    let mut t: Type = Type::TVar(String::from("X0"));
    let res = TArrow::build(Type::TBool, Type::TBool);
    t.apply_ty_subst(&composed);
    assert_eq!(t, res.clone());
    let mut t: Type = Type::TVar(String::from("X1"));
    t.apply_ty_subst(&composed);
    assert_eq!(t, res);
}

#[test]
fn test_unify_basic_1() {
    // { X = Nat, Y = X -> X }
    let c = vec![
        TyConstraint::build(Type::TVar(String::from("X")), Type::TInt),
        TyConstraint::build(
            Type::TVar(String::from("Y")),
            TArrow::build(
                Type::TVar(String::from("X")),
                Type::TVar(String::from("X")),
            ),
        ),
    ];
    let Some(ts) = Type::unify(c) else {
        panic!("expect `c` to be successfully unified");
    };
    // { X -> Nat, Y -> Nat -> Nat }
    let mut res = TySubst::new();
    res.insert(String::from("X"), Type::TInt);
    res.insert(String::from("Y"), TArrow::build(Type::TInt, Type::TInt));
    assert_eq!(res.len(), ts.len());
    for (k, v) in ts.inner() {
        assert!(res.contains(&k), "{k} must exist in the result tysubst");
        assert_eq!(v, res.lookup(&k).unwrap());
    }
}

#[test]
fn test_unify_basic_2() {
    // { X -> Y = Y -> Z, Z = U -> W }
    let c = vec![
        TyConstraint::build(
            TArrow::build(
                Type::TVar(String::from("X")),
                Type::TVar(String::from("Y")),
            ),
            TArrow::build(
                Type::TVar(String::from("Y")),
                Type::TVar(String::from("Z")),
            ),
        ),
        TyConstraint::build(
            Type::TVar(String::from("Z")),
            TArrow::build(
                Type::TVar(String::from("U")),
                Type::TVar(String::from("W")),
            ),
        ),
    ];
    let Some(ts) = Type::unify(c) else {
        panic!("expect `c` to be successfully unified");
    };
    // { X -> U -> W, Y -> U -> W, Z -> U -> W }
    let mut res = TySubst::new();
    let uw = TArrow::build(
        Type::TVar(String::from("U")),
        Type::TVar(String::from("W")),
    );
    res.insert(String::from("X"), uw.clone());
    res.insert(String::from("Y"), uw.clone());
    res.insert(String::from("Z"), uw);
    for (k, v) in ts.inner() {
        assert!(res.contains(&k), "{k} must exist in the result tysubst");
        assert_eq!(v, res.lookup(&k).unwrap());
    }
}

#[test]
fn test_unify_basic_3() {
    // { Y = Nat -> Y }
    let c = vec![TyConstraint::build(
        Type::TVar(String::from("Y")),
        TArrow::build(Type::TInt, Type::TVar(String::from("Y"))),
    )];
    let res = Type::unify(c.clone());
    assert_eq!(
        res.is_none(),
        true,
        "{:#?} can not be unified due to its recursive nature",
        c
    );
}

#[test]
fn test_unify_basic_4() {
    // { Nat -> Nat = X -> Y }
    let c = vec![TyConstraint::build(
        TArrow::build(Type::TInt, Type::TInt),
        TArrow::build(
            Type::TVar(String::from("X")),
            Type::TVar(String::from("Y")),
        ),
    )];
    let Some(ts) = Type::unify(c) else {
        panic!("expect `c` to be successfully unified");
    };
    // { X -> Nat, Y -> Nat }
    let mut res = TySubst::new();
    res.insert(String::from("X"), Type::TInt);
    res.insert(String::from("Y"), Type::TInt);
    assert_eq!(res.len(), ts.len());
    for (k, v) in ts.inner() {
        assert!(res.contains(&k), "{k} must exist in the result tysubst");
        assert_eq!(v, res.lookup(&k).unwrap());
    }
}

#[test]
fn test_ty_infer_c_basic_1() {
    // λx. if x then 1 + 3 else 5
    let e = Lambda::build(
        "x",
        Cond::build(
            Var::build("x"),
            Add::build(Exp::Nat(1), Exp::Nat(3)),
            Exp::Nat(5),
        ),
    );
    // try to infer the type of the untyped lambda calculus exp
    let Some(t) = e.ty_infer_c() else {
        panic!("expect `e` to be successfully inferred");
    };
    // (λx. if x then 1 + 3 else 5) : (Bool -> Int)
    let res = TArrow::build(Type::TBool, Type::TInt);
    assert_eq!(t, res);
}

#[test]
fn test_ty_infer_c_basic_2() {
    // λx. λy. x + y
    let e = Lambda::build(
        "x",
        Lambda::build("y", Add::build(Var::build("x"), Var::build("y"))),
    );
    let Some(t) = e.ty_infer_c() else {
        panic!("expect `e` to be successfully inferred");
    };
    // (λx. λy. x + y) : (Int -> (Int -> Int))
    let res = TArrow::build(Type::TInt, TArrow::build(Type::TInt, Type::TInt));
    assert_eq!(t, res);
}
