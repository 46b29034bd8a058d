use stlc::combinator::YCombinator;
use stlc::expr::app::App;
use stlc::expr::lambda::Lambda;
use stlc::expr::var::Var;
use stlc::stlc_err::StlcError;
use stlc::{Exp, Strategy};

fn omega() -> Exp {
    let half = Lambda::build("x", App::build(Var::build("x"), Var::build("x")));
    App::build(half.clone(), half)
}

#[test]
fn test_eval_omega_exceeds_both_ways() {
    let (cbv, cbn) = Exp::eval_omega();
    assert!(matches!(cbv, Err(StlcError::ExceedEvalLimit(_))));
    assert!(matches!(cbn, Err(StlcError::ExceedEvalLimit(_))));
}

#[test]
fn test_grow_omega_shape() {
    let e = Exp::grow_omega();
    let half = Lambda::build(
        "x",
        App::build(
            App::build(Var::build("x"), Var::build("x")),
            Var::build("x"),
        ),
    );
    assert_eq!(e, App::build(half.clone(), half));
}

#[test]
fn test_is_stuck_basic() {
    // `true false` admits no rule under either strategy and is not a value.
    let stuck = App::build(Exp::True, Exp::False);
    assert!(stuck.is_stuck(Strategy::CallByValue));
    assert!(stuck.is_stuck(Strategy::CallByName));

    // A value is never stuck.
    assert!(!Exp::Nat(3).is_stuck(Strategy::CallByValue));

    // The omega combinator steps (to itself), so it is not stuck.
    assert!(!omega().is_stuck(Strategy::CallByValue));
    assert!(!omega().is_stuck(Strategy::CallByName));
}

#[test]
fn test_y_combinator_times_small() {
    // (Y times) x y z computes x * z when started with y = x: each round
    // adds y down to zero, then restarts y from x and decrements z.
    let yc = YCombinator::new(YCombinator::gen_built_in_times());
    let (result, _steps) = yc
        .eval(
            vec![Exp::Nat(3), Exp::Nat(3), Exp::Nat(4)],
            Strategy::CallByName,
        )
        .unwrap();
    assert_eq!(result, Exp::Nat(12));
}

#[test]
fn test_y_combinator_times_six_squared() {
    let yc = YCombinator::new(YCombinator::gen_built_in_times());
    let (result, _steps) = yc
        .eval(
            vec![Exp::Nat(6), Exp::Nat(6), Exp::Nat(6)],
            Strategy::CallByName,
        )
        .unwrap();
    assert_eq!(result, Exp::Nat(36));
}

#[test]
fn test_y_combinator_equal() {
    let yc = YCombinator::ref_new(YCombinator::ref_gen_built_in_equal());
    let (result, _steps) = yc
        .clone()
        .eval(vec![Exp::Nat(2), Exp::Nat(2)], Strategy::CallByName)
        .unwrap();
    assert_eq!(result, Exp::True);

    let (result, _steps) = yc
        .eval(vec![Exp::Nat(2), Exp::Nat(3)], Strategy::CallByName)
        .unwrap();
    assert_eq!(result, Exp::False);
}
