//! Fresh-variable annotation of untyped terms and constraint generation
//! over annotated terms.

use vstd::prelude::*;
use vstd::string::StringExecFns;

use crate::expr::add::Add;
use crate::expr::app::App;
use crate::expr::cond::Cond;
use crate::expr::lambda::Lambda;
use crate::render::{render_nat, spec_nat_digits};
use crate::type_::{merged_view, tarrow::TArrow, Env, TyConstraint, TyConstraints, Type, TypeV};
use crate::typing::{spec_all_annotated, spec_none_annotated};
use crate::{Exp, ExpV};

verus! {

/// The name of the `n`-th fresh type variable: `X` followed by `n` in
/// decimal.
pub open spec fn spec_tvar_name(n: nat) -> Seq<char> {
    "X"@ + spec_nat_digits(n)
}

/// How many lambda binders `e` holds.
pub open spec fn spec_num_lambdas(e: ExpV) -> nat
    decreases e,
{
    match e {
        ExpV::Lambda(_, _, b) => 1 + spec_num_lambdas(*b),
        ExpV::App(t1, t2) => spec_num_lambdas(*t1) + spec_num_lambdas(*t2),
        ExpV::Cond(c, t, f) => spec_num_lambdas(*c) + spec_num_lambdas(*t) + spec_num_lambdas(*f),
        ExpV::IsZero(e1) => spec_num_lambdas(*e1),
        ExpV::Incr(e1) => spec_num_lambdas(*e1),
        ExpV::Decr(e1) => spec_num_lambdas(*e1),
        ExpV::Add(t1, t2) => spec_num_lambdas(*t1) + spec_num_lambdas(*t2),
        _ => 0,
    }
}

/// How many applications `e` holds.
pub open spec fn spec_num_apps(e: ExpV) -> nat
    decreases e,
{
    match e {
        ExpV::Lambda(_, _, b) => spec_num_apps(*b),
        ExpV::App(t1, t2) => 1 + spec_num_apps(*t1) + spec_num_apps(*t2),
        ExpV::Cond(c, t, f) => spec_num_apps(*c) + spec_num_apps(*t) + spec_num_apps(*f),
        ExpV::IsZero(e1) => spec_num_apps(*e1),
        ExpV::Incr(e1) => spec_num_apps(*e1),
        ExpV::Decr(e1) => spec_num_apps(*e1),
        ExpV::Add(t1, t2) => spec_num_apps(*t1) + spec_num_apps(*t2),
        _ => 0,
    }
}

/// Annotation of `e` beginning at counter `n`: a preorder traversal that
/// attaches the fresh variable `Xn` to each lambda binder it meets. A
/// binder consumes the current number and its body is annotated with the
/// next one; at branching nodes the counter threads left to right. The
/// result pairs the annotated term with the final counter.
pub open spec fn spec_annotate(e: ExpV, n: nat) -> (ExpV, nat)
    decreases e,
{
    match e {
        ExpV::Lambda(a, _t, b) => {
            let r = spec_annotate(*b, n + 1);
            (ExpV::Lambda(a, Some(TypeV::TVar(spec_tvar_name(n))), Box::new(r.0)), r.1)
        },
        ExpV::App(t1, t2) => {
            let r1 = spec_annotate(*t1, n);
            let r2 = spec_annotate(*t2, r1.1);
            (ExpV::App(Box::new(r1.0), Box::new(r2.0)), r2.1)
        },
        ExpV::Add(t1, t2) => {
            let r1 = spec_annotate(*t1, n);
            let r2 = spec_annotate(*t2, r1.1);
            (ExpV::Add(Box::new(r1.0), Box::new(r2.0)), r2.1)
        },
        ExpV::Cond(c, t, f) => {
            let rc = spec_annotate(*c, n);
            let rt = spec_annotate(*t, rc.1);
            let rf = spec_annotate(*f, rt.1);
            (ExpV::Cond(Box::new(rc.0), Box::new(rt.0), Box::new(rf.0)), rf.1)
        },
        ExpV::IsZero(e1) => {
            let r = spec_annotate(*e1, n);
            (ExpV::IsZero(Box::new(r.0)), r.1)
        },
        ExpV::Incr(e1) => {
            let r = spec_annotate(*e1, n);
            (ExpV::Incr(Box::new(r.0)), r.1)
        },
        ExpV::Decr(e1) => {
            let r = spec_annotate(*e1, n);
            (ExpV::Decr(Box::new(r.0)), r.1)
        },
        _ => (e, n),
    }
}

/// Annotation advances the counter by exactly the number of binders, and
/// the result is fully annotated.
pub proof fn lemma_annotate_count(e: ExpV, n: nat)
    ensures
        spec_annotate(e, n).1 == n + spec_num_lambdas(e),
        spec_all_annotated(spec_annotate(e, n).0),
    decreases e,
{
    match e {
        ExpV::Lambda(_a, _t, b) => {
            lemma_annotate_count(*b, n + 1);
        },
        ExpV::App(t1, t2) => {
            lemma_annotate_count(*t1, n);
            lemma_annotate_count(*t2, spec_annotate(*t1, n).1);
        },
        ExpV::Add(t1, t2) => {
            lemma_annotate_count(*t1, n);
            lemma_annotate_count(*t2, spec_annotate(*t1, n).1);
        },
        ExpV::Cond(c, t, f) => {
            lemma_annotate_count(*c, n);
            lemma_annotate_count(*t, spec_annotate(*c, n).1);
            lemma_annotate_count(*f, spec_annotate(*t, spec_annotate(*c, n).1).1);
        },
        ExpV::IsZero(e1) => lemma_annotate_count(*e1, n),
        ExpV::Incr(e1) => lemma_annotate_count(*e1, n),
        ExpV::Decr(e1) => lemma_annotate_count(*e1, n),
        _ => {},
    }
}


/// Annotation changes no structure: the number of applications is kept.
pub proof fn lemma_annotate_apps(e: ExpV, n: nat)
    ensures
        spec_num_apps(spec_annotate(e, n).0) == spec_num_apps(e),
    decreases e,
{
    match e {
        ExpV::Lambda(_a, _t, b) => {
            lemma_annotate_apps(*b, n + 1);
        },
        ExpV::App(t1, t2) => {
            lemma_annotate_apps(*t1, n);
            lemma_annotate_apps(*t2, spec_annotate(*t1, n).1);
        },
        ExpV::Add(t1, t2) => {
            lemma_annotate_apps(*t1, n);
            lemma_annotate_apps(*t2, spec_annotate(*t1, n).1);
        },
        ExpV::Cond(c, t, f) => {
            lemma_annotate_apps(*c, n);
            lemma_annotate_apps(*t, spec_annotate(*c, n).1);
            lemma_annotate_apps(*f, spec_annotate(*t, spec_annotate(*c, n).1).1);
        },
        ExpV::IsZero(e1) => lemma_annotate_apps(*e1, n),
        ExpV::Incr(e1) => lemma_annotate_apps(*e1, n),
        ExpV::Decr(e1) => lemma_annotate_apps(*e1, n),
        _ => {},
    }
}

/// The `n`-th fresh type variable `Xn`.
fn make_tvar(n: u32) -> (r: Type)
    ensures
        r@ == TypeV::TVar(spec_tvar_name(n as nat)),
{
    let mut s = "X".to_owned();
    let digits = render_nat(n);
    s.append(digits.as_str());
    Type::TVar(s)
}

/// Annotation of `e` beginning at counter `n`, as executable code.
fn annotate_inner(e: Exp, n: u32) -> (r: (Exp, u32))
    requires
        n + spec_num_lambdas(e@) <= u32::MAX,
    ensures
        r.0@ == spec_annotate(e@, n as nat).0,
        r.1 as nat == spec_annotate(e@, n as nat).1,
    decreases e,
{
    match e {
        Exp::Lambda(l) => {
            let inner = *l;
            proof {
                lemma_annotate_count(inner.exp@, n as nat + 1);
            }
            let (b2, n2) = annotate_inner(inner.exp, n + 1);
            let ann = make_tvar(n);
            (Exp::Lambda(Box::new(Lambda { arg: inner.arg, exp: b2, ty: Some(ann) })), n2)
        },
        Exp::App(a) => {
            let inner = *a;
            proof {
                lemma_annotate_count(inner.t1@, n as nat);
                lemma_annotate_count(inner.t2@, spec_annotate(inner.t1@, n as nat).1);
            }
            let (t1, n1) = annotate_inner(inner.t1, n);
            let (t2, n2) = annotate_inner(inner.t2, n1);
            (Exp::App(Box::new(App { t1, t2 })), n2)
        },
        Exp::Add(a) => {
            let inner = *a;
            proof {
                lemma_annotate_count(inner.t1@, n as nat);
                lemma_annotate_count(inner.t2@, spec_annotate(inner.t1@, n as nat).1);
            }
            let (t1, n1) = annotate_inner(inner.t1, n);
            let (t2, n2) = annotate_inner(inner.t2, n1);
            (Exp::Add(Box::new(Add { t1, t2 })), n2)
        },
        Exp::Cond(c) => {
            let inner = *c;
            proof {
                lemma_annotate_count(inner.guard@, n as nat);
                lemma_annotate_count(inner.thn@, spec_annotate(inner.guard@, n as nat).1);
                lemma_annotate_count(
                    inner.els@,
                    spec_annotate(inner.thn@, spec_annotate(inner.guard@, n as nat).1).1,
                );
            }
            let (guard, n1) = annotate_inner(inner.guard, n);
            let (thn, n2) = annotate_inner(inner.thn, n1);
            let (els, n3) = annotate_inner(inner.els, n2);
            (Exp::Cond(Box::new(Cond { guard, thn, els })), n3)
        },
        Exp::IsZero(e1) => {
            let (b2, n2) = annotate_inner(*e1, n);
            (Exp::IsZero(Box::new(b2)), n2)
        },
        Exp::Incr(e1) => {
            let (b2, n2) = annotate_inner(*e1, n);
            (Exp::Incr(Box::new(b2)), n2)
        },
        Exp::Decr(e1) => {
            let (b2, n2) = annotate_inner(*e1, n);
            (Exp::Decr(Box::new(b2)), n2)
        },
        e => (e, n),
    }
}

impl Exp {
    /// Rewrites this untyped term in place, attaching the fresh type
    /// variables `X0, X1, ...` to its lambda binders in preorder, and
    /// returns the final counter: the next free index. Calling this on a
    /// term that is already typed is a programmer error and is excluded by
    /// the precondition.
    pub fn annotate_term(&mut self) -> (r: u32)
        requires
            spec_none_annotated(old(self)@),
            !spec_all_annotated(old(self)@),
            spec_num_lambdas(old(self)@) <= u32::MAX,
        ensures
            final(self)@ == spec_annotate(old(self)@, 0).0,
            r as nat == spec_annotate(old(self)@, 0).1,
            spec_all_annotated(final(self)@),
    {
        proof {
            lemma_annotate_count(self@, 0);
        }
        let cur = self.clone();
        let (e2, n2) = annotate_inner(cur, 0);
        *self = e2;
        n2
    }

    /// Rewrites this untyped term in place with fresh annotations and
    /// returns the next free index.
    pub fn ref_annotate_term(&mut self) -> (r: u32)
        requires
            spec_none_annotated(old(self)@),
            !spec_all_annotated(old(self)@),
            spec_num_lambdas(old(self)@) <= u32::MAX,
        ensures
            final(self)@ == spec_annotate(old(self)@, 0).0,
            r as nat == spec_annotate(old(self)@, 0).1,
            spec_all_annotated(final(self)@),
    {
        self.annotate_term()
    }
}

/// Constraint generation over the annotated term `e` under `env`, with
/// fresh variables issued from `n` on: the type of `e` together with the
/// equations a solver must satisfy for `e` to have it. Generation fails
/// exactly on a free variable not bound in `env` and on the forms the
/// constraint system does not cover (`is_zero`, `incr`, `decr`).
pub open spec fn spec_gen(e: ExpV, env: Map<Seq<char>, TypeV>, n: nat) -> Option<
    (nat, TypeV, Seq<(TypeV, TypeV)>),
>
    decreases e,
{
    match e {
        ExpV::True => Some((n, TypeV::TBool, Seq::empty())),
        ExpV::False => Some((n, TypeV::TBool, Seq::empty())),
        ExpV::Cond(c, t, f) => match spec_gen(*c, env, n) {
            None => None,
            Some((n1, tc, c1)) => match spec_gen(*t, env, n1) {
                None => None,
                Some((n2, tt, c2)) => match spec_gen(*f, env, n2) {
                    None => None,
                    Some((n3, te, c3)) => Some(
                        (n3, tt, c1 + c2 + c3 + seq![(tc, TypeV::TBool), (tt, te)]),
                    ),
                },
            },
        },
        ExpV::Lambda(a, ann, b) => match ann {
            None => None,
            Some(t1) => match spec_gen(*b, env.insert(a, t1), n) {
                None => None,
                Some((n1, t2, c)) => Some((n1, TypeV::TArrow(Box::new(t1), Box::new(t2)), c)),
            },
        },
        ExpV::App(t1, t2) => match spec_gen(*t1, env, n) {
            None => None,
            Some((n1, ty1, c1)) => match spec_gen(*t2, env, n1) {
                None => None,
                Some((n2, ty2, c2)) => {
                    let x = TypeV::TVar(spec_tvar_name(n2));
                    Some(
                        (
                            n2 + 1,
                            x,
                            c1 + c2 + seq![(ty1, TypeV::TArrow(Box::new(ty2), Box::new(x)))],
                        ),
                    )
                },
            },
        },
        ExpV::Var(v) => if env.dom().contains(v) {
            Some((n, env[v], Seq::empty()))
        } else {
            None
        },
        ExpV::Nat(_) => Some((n, TypeV::TInt, Seq::empty())),
        ExpV::Add(t1, t2) => match spec_gen(*t1, env, n) {
            None => None,
            Some((n1, ty1, c1)) => match spec_gen(*t2, env, n1) {
                None => None,
                Some((n2, ty2, c2)) => Some(
                    (n2, TypeV::TInt, c1 + c2 + seq![(ty1, TypeV::TInt), (ty2, TypeV::TInt)]),
                ),
            },
        },
        _ => None,
    }
}

/// A successful generation advances the counter by at most the number of
/// applications in the term, and never moves it backwards.
pub proof fn lemma_gen_bound(e: ExpV, env: Map<Seq<char>, TypeV>, n: nat)
    ensures
        match spec_gen(e, env, n) {
            Some(r) => n <= r.0 <= n + spec_num_apps(e),
            None => true,
        },
    decreases e,
{
    match e {
        ExpV::Cond(c, t, f) => {
            lemma_gen_bound(*c, env, n);
            if spec_gen(*c, env, n) is Some {
                let n1 = (spec_gen(*c, env, n)->0).0;
                lemma_gen_bound(*t, env, n1);
                if spec_gen(*t, env, n1) is Some {
                    let n2 = (spec_gen(*t, env, n1)->0).0;
                    lemma_gen_bound(*f, env, n2);
                }
            }
        },
        ExpV::Lambda(a, ann, b) => {
            if ann is Some {
                lemma_gen_bound(*b, env.insert(a, ann->0), n);
            }
        },
        ExpV::App(t1, t2) => {
            lemma_gen_bound(*t1, env, n);
            if spec_gen(*t1, env, n) is Some {
                let n1 = (spec_gen(*t1, env, n)->0).0;
                lemma_gen_bound(*t2, env, n1);
            }
        },
        ExpV::Add(t1, t2) => {
            lemma_gen_bound(*t1, env, n);
            if spec_gen(*t1, env, n) is Some {
                let n1 = (spec_gen(*t1, env, n)->0).0;
                lemma_gen_bound(*t2, env, n1);
            }
        },
        _ => {},
    }
}


proof fn lemma_merged_view3(s: Seq<TyConstraints>)
    requires
        s.len() == 3,
    ensures
        merged_view(s) == s[0]@ + s[1]@ + s[2]@,
{
    let s1 = s.drop_first();
    let s2 = s1.drop_first();
    let s3 = s2.drop_first();
    assert(s1[0] == s[1]);
    assert(s2[0] == s[2]);
    assert(s3.len() == 0);
    assert(merged_view(s3) == Seq::<(TypeV, TypeV)>::empty());
    assert(merged_view(s2) =~= s[2]@);
    assert(merged_view(s1) =~= s[1]@ + s[2]@);
    assert(merged_view(s) =~= s[0]@ + (s[1]@ + s[2]@));
    assert(s[0]@ + (s[1]@ + s[2]@) =~= s[0]@ + s[1]@ + s[2]@);
}

proof fn lemma_merged_view4(s: Seq<TyConstraints>)
    requires
        s.len() == 4,
    ensures
        merged_view(s) == s[0]@ + s[1]@ + s[2]@ + s[3]@,
{
    let s1 = s.drop_first();
    let s2 = s1.drop_first();
    let s3 = s2.drop_first();
    let s4 = s3.drop_first();
    assert(s1[0] == s[1]);
    assert(s2[0] == s[2]);
    assert(s3[0] == s[3]);
    assert(s4.len() == 0);
    assert(merged_view(s4) == Seq::<(TypeV, TypeV)>::empty());
    assert(merged_view(s3) =~= s[3]@);
    assert(merged_view(s2) =~= s[2]@ + s[3]@);
    assert(merged_view(s1) =~= s[1]@ + (s[2]@ + s[3]@));
    assert(merged_view(s) =~= s[0]@ + (s[1]@ + (s[2]@ + s[3]@)));
    assert(s[0]@ + (s[1]@ + (s[2]@ + s[3]@)) =~= s[0]@ + s[1]@ + s[2]@ + s[3]@);
}

impl Exp {
    /// Constraint generation over this annotated term under `env`, with
    /// fresh variables issued from `n` on; the environment is left as it
    /// was found.
    #[verifier::rlimit(100)]
    pub fn infer_constraints(&self, env: &mut Env, n: u32) -> (r: Option<(u32, Type, TyConstraints)>)
        requires
            spec_all_annotated(self@),
            old(env).wf(),
            n + spec_num_apps(self@) <= u32::MAX,
        ensures
            final(env).wf(),
            final(env)@ == old(env)@,
            match r {
                Some(t) => spec_gen(self@, old(env)@, n as nat) == Some(
                    (t.0 as nat, t.1@, t.2@),
                ),
                None => spec_gen(self@, old(env)@, n as nat) is None,
            },
        decreases self,
    {
        match self {
            Exp::True => Some((n, Type::TBool, TyConstraints::empty())),
            Exp::False => Some((n, Type::TBool, TyConstraints::empty())),
            Exp::Cond(cnd) => {
                proof {
                    lemma_gen_bound(cnd.guard@, env@, n as nat);
                }
                match cnd.guard.infer_constraints(env, n) {
                    None => None,
                    Some((n1, tc, c1)) => {
                        proof {
                            lemma_gen_bound(cnd.thn@, env@, n1 as nat);
                        }
                        match cnd.thn.infer_constraints(env, n1) {
                            None => None,
                            Some((n2, tt, c2)) => {
                                match cnd.els.infer_constraints(env, n2) {
                                    None => None,
                                    Some((n3, te, c3)) => {
                                        let ghost target = (spec_gen(
                                            self@,
                                            old(env)@,
                                            n as nat,
                                        )->0).2;
                                        let ghost (tcv, ttv, tev) = (tc@, tt@, te@);
                                        let ghost (c1v, c2v, c3v) = (c1@, c2@, c3@);
                                        let extra = TyConstraints::build(
                                            vec![
                                                TyConstraint::build(tc, Type::TBool),
                                                TyConstraint::build(tt.clone(), te),
                                            ],
                                        );
                                        proof {
                                            assert(extra@ =~= seq![
                                                (tcv, TypeV::TBool),
                                                (ttv, tev),
                                            ]);
                                        }
                                        let ghost ev = extra@;
                                        let parts = vec![c1, c2, c3, extra];
                                        proof {
                                            assert(parts@.len() == 4);
                                            lemma_merged_view4(parts@);
                                        }
                                        let merged = TyConstraints::merge(parts);
                                        proof {
                                            assert(merged@ == ((c1v + c2v) + c3v) + ev);
                                            assert(merged@ =~= target);
                                        }
                                        Some((n3, tt, merged))
                                    },
                                }
                            },
                        }
                    },
                }
            },
            Exp::Lambda(l) => {
                match &l.ty {
                    None => None,
                    Some(t1) => {
                        let saved = env.insert(l.arg.clone(), t1.clone());
                        let inner = l.exp.infer_constraints(env, n);
                        crate::typing::restore_binding(env, &l.arg, saved);
                        proof {
                            assert(env@ =~= old(env)@);
                        }
                        match inner {
                            None => None,
                            Some((n1, t2, c)) => Some((n1, TArrow::build(t1.clone(), t2), c)),
                        }
                    },
                }
            },
            Exp::App(a) => {
                proof {
                    lemma_gen_bound(a.t1@, env@, n as nat);
                }
                match a.t1.infer_constraints(env, n) {
                    None => None,
                    Some((n1, ty1, c1)) => {
                        proof {
                            lemma_gen_bound(a.t2@, env@, n1 as nat);
                        }
                        match a.t2.infer_constraints(env, n1) {
                            None => None,
                            Some((n2, ty2, c2)) => {
                                let ghost target = (spec_gen(self@, old(env)@, n as nat)->0).2;
                                let ghost (t1v, t2v) = (ty1@, ty2@);
                                let ghost (c1v, c2v) = (c1@, c2@);
                                let x = make_tvar(n2);
                                let extra = TyConstraints::build(
                                    vec![
                                        TyConstraint::build(
                                            ty1,
                                            TArrow::build(ty2, x.clone()),
                                        ),
                                    ],
                                );
                                proof {
                                    assert(extra@ =~= seq![
                                        (
                                            t1v,
                                            TypeV::TArrow(
                                                Box::new(t2v),
                                                Box::new(
                                                    TypeV::TVar(spec_tvar_name(n2 as nat)),
                                                ),
                                            ),
                                        ),
                                    ]);
                                }
                                let ghost ev = extra@;
                                let parts = vec![c1, c2, extra];
                                proof {
                                    assert(parts@.len() == 3);
                                    lemma_merged_view3(parts@);
                                }
                                let merged = TyConstraints::merge(parts);
                                proof {
                                    assert(merged@ == (c1v + c2v) + ev);
                                    assert(merged@ =~= target);
                                }
                                Some((n2 + 1, x, merged))
                            },
                        }
                    },
                }
            },
            Exp::Var(v) => {
                match env.lookup(v) {
                    None => None,
                    Some(t) => Some((n, t, TyConstraints::empty())),
                }
            },
            Exp::Nat(_) => Some((n, Type::TInt, TyConstraints::empty())),
            Exp::Add(a) => {
                proof {
                    lemma_gen_bound(a.t1@, env@, n as nat);
                }
                match a.t1.infer_constraints(env, n) {
                    None => None,
                    Some((n1, ty1, c1)) => {
                        match a.t2.infer_constraints(env, n1) {
                            None => None,
                            Some((n2, ty2, c2)) => {
                                let ghost target = (spec_gen(self@, old(env)@, n as nat)->0).2;
                                let ghost (t1v, t2v) = (ty1@, ty2@);
                                let ghost (c1v, c2v) = (c1@, c2@);
                                let extra = TyConstraints::build(
                                    vec![
                                        TyConstraint::build(ty1, Type::TInt),
                                        TyConstraint::build(ty2, Type::TInt),
                                    ],
                                );
                                proof {
                                    assert(extra@ =~= seq![
                                        (t1v, TypeV::TInt),
                                        (t2v, TypeV::TInt),
                                    ]);
                                }
                                let ghost ev = extra@;
                                let parts = vec![c1, c2, extra];
                                proof {
                                    assert(parts@.len() == 3);
                                    lemma_merged_view3(parts@);
                                }
                                let merged = TyConstraints::merge(parts);
                                proof {
                                    assert(merged@ == (c1v + c2v) + ev);
                                    assert(merged@ =~= target);
                                }
                                Some((n2, Type::TInt, merged))
                            },
                        }
                    },
                }
            },
            _ => None,
        }
    }

    /// Constraint generation over this annotated term under `env`.
    pub fn ref_infer_constraints(&self, env: &mut Env, n: u32) -> (r: Option<
        (u32, Type, TyConstraints),
    >)
        requires
            spec_all_annotated(self@),
            old(env).wf(),
            n + spec_num_apps(self@) <= u32::MAX,
        ensures
            final(env).wf(),
            final(env)@ == old(env)@,
            match r {
                Some(t) => spec_gen(self@, old(env)@, n as nat) == Some(
                    (t.0 as nat, t.1@, t.2@),
                ),
                None => spec_gen(self@, old(env)@, n as nat) is None,
            },
    {
        self.infer_constraints(env, n)
    }
}

} // verus!
