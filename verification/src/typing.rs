//! The annotated-term predicate and the bidirectional type checker with its
//! local inference helper.

use vstd::prelude::*;

use crate::expr::app::App;
use crate::type_::{tarrow::TArrow, Env, Type, TypeV};
use crate::{Exp, ExpV};

verus! {

/// Whether every lambda binder of `e` carries a type annotation.
pub open spec fn spec_all_annotated(e: ExpV) -> bool
    decreases e,
{
    match e {
        ExpV::Lambda(_, t, b) => t is Some && spec_all_annotated(*b),
        ExpV::App(t1, t2) => spec_all_annotated(*t1) && spec_all_annotated(*t2),
        ExpV::Cond(c, t, f) => spec_all_annotated(*c) && spec_all_annotated(*t)
            && spec_all_annotated(*f),
        ExpV::IsZero(e1) => spec_all_annotated(*e1),
        ExpV::Incr(e1) => spec_all_annotated(*e1),
        ExpV::Decr(e1) => spec_all_annotated(*e1),
        ExpV::Add(t1, t2) => spec_all_annotated(*t1) && spec_all_annotated(*t2),
        _ => true,
    }
}

/// Whether no lambda binder of `e` carries a type annotation.
pub open spec fn spec_none_annotated(e: ExpV) -> bool
    decreases e,
{
    match e {
        ExpV::Lambda(_, t, b) => t is None && spec_none_annotated(*b),
        ExpV::App(t1, t2) => spec_none_annotated(*t1) && spec_none_annotated(*t2),
        ExpV::Cond(c, t, f) => spec_none_annotated(*c) && spec_none_annotated(*t)
            && spec_none_annotated(*f),
        ExpV::IsZero(e1) => spec_none_annotated(*e1),
        ExpV::Incr(e1) => spec_none_annotated(*e1),
        ExpV::Decr(e1) => spec_none_annotated(*e1),
        ExpV::Add(t1, t2) => spec_none_annotated(*t1) && spec_none_annotated(*t2),
        _ => true,
    }
}

/// Local type inference under `env`, used by the checker where an
/// application's function position carries no immediate annotation. A
/// lambda's own binder is not entered into the environment here: a body
/// that mentions it only infers through the environment at hand.
pub open spec fn spec_ty_infer(e: ExpV, env: Map<Seq<char>, TypeV>) -> Option<TypeV>
    decreases e, 0int,
{
    match e {
        ExpV::True => Some(TypeV::TBool),
        ExpV::False => Some(TypeV::TBool),
        ExpV::IsZero(_) => Some(TypeV::TBool),
        ExpV::Incr(_) => Some(TypeV::TInt),
        ExpV::Decr(_) => Some(TypeV::TInt),
        ExpV::Add(_, _) => Some(TypeV::TInt),
        ExpV::Nat(_) => Some(TypeV::TInt),
        ExpV::Cond(c, t, f) => if !spec_ty_check(*c, TypeV::TBool, env) {
            None
        } else {
            match spec_ty_infer(*t, env) {
                None => None,
                Some(t1) => match spec_ty_infer(*f, env) {
                    None => None,
                    Some(t2) => if t1 == t2 {
                        Some(t1)
                    } else {
                        None
                    },
                },
            }
        },
        ExpV::Var(v) => if env.dom().contains(v) {
            Some(env[v])
        } else {
            None
        },
        ExpV::Lambda(_a, ann, b) => match ann {
            None => None,
            Some(d) => match spec_ty_infer(*b, env) {
                None => None,
                Some(t) => Some(TypeV::TArrow(Box::new(d), Box::new(t))),
            },
        },
        ExpV::App(t1, t2) => match spec_ty_infer(*t1, env) {
            Some(TypeV::TArrow(d, c)) => if spec_ty_check(*t2, *d, env) {
                Some(*c)
            } else {
                None
            },
            _ => None,
        },
    }
}

/// The bidirectional check of `e` against `ty` under `env`. At an
/// application the checker dispatches on the shape of the function
/// position: a lambda's annotation determines the argument type, a
/// variable's type comes from the environment, and anything else falls
/// back on local inference.
pub open spec fn spec_ty_check(e: ExpV, ty: TypeV, env: Map<Seq<char>, TypeV>) -> bool
    decreases e, 1int,
{
    match e {
        ExpV::True => ty is TBool,
        ExpV::False => ty is TBool,
        ExpV::Cond(c, t, f) => spec_ty_check(*c, TypeV::TBool, env) && spec_ty_check(*t, ty, env)
            && spec_ty_check(*f, ty, env),
        ExpV::Lambda(a, ann, b) => match ann {
            Some(d) => match ty {
                TypeV::TArrow(d1, c1) => d == *d1 && spec_ty_check(*b, *c1, env.insert(a, *d1)),
                _ => false,
            },
            None => false,
        },
        ExpV::App(t1, t2) => match *t1 {
            ExpV::Lambda(a, ann, b) => match ann {
                Some(d) => spec_ty_check(*t2, d, env) && spec_ty_check(*b, ty, env.insert(a, d)),
                None => false,
            },
            ExpV::Var(v) => if env.dom().contains(v) {
                match env[v] {
                    TypeV::TArrow(d, c) => *c == ty && spec_ty_check(*t2, *d, env),
                    _ => false,
                }
            } else {
                false
            },
            _ => match spec_ty_infer(*t1, env) {
                Some(TypeV::TArrow(d, c)) => *c == ty && spec_ty_check(*t2, *d, env),
                _ => false,
            },
        },
        ExpV::Var(v) => (if env.dom().contains(v) {
            env[v]
        } else {
            TypeV::TDummy
        }) == ty,
        ExpV::Nat(_) => ty is TInt,
        ExpV::Add(t1, t2) => ty is TInt && spec_ty_check(*t1, TypeV::TInt, env)
            && spec_ty_check(*t2, TypeV::TInt, env),
        _ => false,
    }
}

impl Exp {
    /// Whether this term is typed: every lambda binder carries an
    /// annotation. The annotation discipline must be consistent — a term
    /// mixing annotated and unannotated binders is a programmer error and
    /// is excluded by the precondition.
    pub fn typed(&self) -> (r: bool)
        requires
            spec_all_annotated(self@) || spec_none_annotated(self@),
        ensures
            r == spec_all_annotated(self@),
        decreases self,
    {
        match self {
            Exp::Lambda(l) => l.ty.is_some(),
            Exp::App(a) => a.t1.typed() && a.t2.typed(),
            Exp::Cond(c) => c.guard.typed() && c.thn.typed() && c.els.typed(),
            Exp::IsZero(e1) => e1.typed(),
            Exp::Incr(e1) => e1.typed(),
            Exp::Decr(e1) => e1.typed(),
            Exp::Add(a) => a.t1.typed() && a.t2.typed(),
            _ => true,
        }
    }

    /// Whether this term is typed.
    pub fn ref_typed(&self) -> (r: bool)
        requires
            spec_all_annotated(self@) || spec_none_annotated(self@),
        ensures
            r == spec_all_annotated(self@),
    {
        self.typed()
    }

    /// Local type inference under `env`; the environment is left as it was
    /// found.
    fn ty_infer(&self, env: &mut Env) -> (r: Option<Type>)
        requires
            spec_all_annotated(self@),
            old(env).wf(),
        ensures
            final(env).wf(),
            final(env)@ == old(env)@,
            match r {
                Some(t) => spec_ty_infer(self@, old(env)@) == Some(t@),
                None => spec_ty_infer(self@, old(env)@) is None,
            },
        decreases self, 0int,
    {
        match self {
            Exp::True => Some(Type::TBool),
            Exp::False => Some(Type::TBool),
            Exp::IsZero(_) => Some(Type::TBool),
            Exp::Incr(_) => Some(Type::TInt),
            Exp::Decr(_) => Some(Type::TInt),
            Exp::Add(_) => Some(Type::TInt),
            Exp::Nat(_) => Some(Type::TInt),
            Exp::Cond(c) => {
                if !c.guard.ty_check_inner(&Type::TBool, env) {
                    None
                } else {
                    match c.thn.ty_infer(env) {
                        None => None,
                        Some(t1) => match c.els.ty_infer(env) {
                            None => None,
                            Some(t2) => if t1.ty_eq(&t2) {
                                Some(t1)
                            } else {
                                None
                            },
                        },
                    }
                }
            },
            Exp::Var(v) => env.lookup(v),
            Exp::Lambda(l) => {
                match &l.ty {
                    None => None,
                    Some(d) => match l.exp.ty_infer(env) {
                        None => None,
                        Some(t) => Some(TArrow::build(d.clone(), t)),
                    },
                }
            },
            Exp::App(a) => {
                match a.t1.ty_infer(env) {
                    Some(Type::TArrow(arr)) => {
                        let TArrow { ty1, ty2 } = *arr;
                        if a.t2.ty_check_inner(&ty1, env) {
                            Some(ty2)
                        } else {
                            None
                        }
                    },
                    _ => None,
                }
            },
        }
    }

    /// The bidirectional check of this term against `ty` under `env`; the
    /// environment is left as it was found.
    fn ty_check_inner(&self, ty: &Type, env: &mut Env) -> (r: bool)
        requires
            spec_all_annotated(self@),
            old(env).wf(),
        ensures
            final(env).wf(),
            final(env)@ == old(env)@,
            r == spec_ty_check(self@, ty@, old(env)@),
        decreases self, 1int,
    {
        match self {
            Exp::True => ty.is_bool(),
            Exp::False => ty.is_bool(),
            Exp::Cond(c) => {
                c.guard.ty_check_inner(&Type::TBool, env) && c.thn.ty_check_inner(ty, env)
                    && c.els.ty_check_inner(ty, env)
            },
            Exp::Lambda(l) => {
                match &l.ty {
                    Some(d) => match ty {
                        Type::TArrow(arr) => {
                            if !d.ty_eq(&arr.ty1) {
                                false
                            } else {
                                let saved = env.insert(l.arg.clone(), arr.ty1.clone());
                                let second = l.exp.ty_check_inner(&arr.ty2, env);
                                restore_binding(env, &l.arg, saved);
                                proof {
                                    assert(env@ =~= old(env)@);
                                }
                                second
                            }
                        },
                        _ => false,
                    },
                    None => false,
                }
            },
            Exp::App(a) => ty_check_app(a, ty, env),
            Exp::Var(v) => {
                match env.lookup(v) {
                    Some(t) => t.ty_eq(ty),
                    None => {
                        let dummy = Type::TDummy;
                        dummy.ty_eq(ty)
                    },
                }
            },
            Exp::Nat(_) => ty.is_int(),
            Exp::Add(a) => {
                if !ty.is_int() {
                    false
                } else {
                    a.t1.ty_check_inner(&Type::TInt, env) && a.t2.ty_check_inner(&Type::TInt, env)
                }
            },
            _ => false,
        }
    }

    /// Whether this term checks against `ty` under the empty environment.
    pub fn ty_check(&self, ty: Type) -> (r: bool)
        requires
            spec_all_annotated(self@),
        ensures
            r == spec_ty_check(self@, ty@, Map::<Seq<char>, TypeV>::empty()),
    {
        let mut env = Env::new();
        self.ty_check_inner(&ty, &mut env)
    }

    /// Whether this term checks against `ty` under the empty environment.
    pub fn ref_ty_check(&self, ty: Type) -> (r: bool)
        requires
            spec_all_annotated(self@),
        ensures
            r == spec_ty_check(self@, ty@, Map::<Seq<char>, TypeV>::empty()),
    {
        self.ty_check(ty)
    }
}

/// Puts a binding back the way it was: re-insert the saved type, or remove
/// the key that was not bound before.
pub(crate) fn restore_binding(env: &mut Env, key: &String, saved: Option<Type>)
    requires
        old(env).wf(),
    ensures
        final(env).wf(),
        final(env)@ == (match saved {
            Some(t) => old(env)@.insert(key@, t@),
            None => old(env)@.remove(key@),
        }),
{
    match saved {
        Some(t) => {
            env.insert(key.clone(), t);
        },
        None => {
            env.remove(key.clone());
        },
    }
}

/// The application case of the checker.
fn ty_check_app(a: &App, ty: &Type, env: &mut Env) -> (r: bool)
    requires
        spec_all_annotated(ExpV::App(Box::new(a.t1@), Box::new(a.t2@))),
        old(env).wf(),
    ensures
        final(env).wf(),
        final(env)@ == old(env)@,
        r == spec_ty_check(ExpV::App(Box::new(a.t1@), Box::new(a.t2@)), ty@, old(env)@),
    decreases a, 0int,
{
    match &a.t1 {
        Exp::Lambda(l) => {
            match &l.ty {
                Some(d) => {
                    let first = a.t2.ty_check_inner(d, env);
                    if !first {
                        false
                    } else {
                        let saved = env.insert(l.arg.clone(), d.clone());
                        proof {
                            assert(spec_all_annotated(a.t1@));
                            assert(spec_all_annotated(l.exp@));
                        }
                        let second = l.exp.ty_check_inner(ty, env);
                        restore_binding(env, &l.arg, saved);
                        proof {
                            assert(env@ =~= old(env)@);
                        }
                        second
                    }
                },
                None => false,
            }
        },
        Exp::Var(v) => {
            match env.lookup(v) {
                Some(t) => match t {
                    Type::TArrow(arr) => {
                        if !arr.ty2.ty_eq(ty) {
                            false
                        } else {
                            a.t2.ty_check_inner(&arr.ty1, env)
                        }
                    },
                    _ => false,
                },
                None => false,
            }
        },
        _ => {
            match a.t1.ty_infer(env) {
                Some(t) => match t {
                    Type::TArrow(arr) => {
                        if !arr.ty2.ty_eq(ty) {
                            false
                        } else {
                            a.t2.ty_check_inner(&arr.ty1, env)
                        }
                    },
                    _ => false,
                },
                None => false,
            }
        },
    }
}

} // verus!
