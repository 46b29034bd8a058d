//! Type substitution application and composition, the occurs check, and
//! first-order unification of type constraints.

use vstd::prelude::*;
use vstd::set_lib::lemma_len_subset;

use crate::type_::{
    csts_view, kvs_view, kvs_wf, tarrow::TArrow, TyConstraint, TySubst, Type, TypeV,
};

verus! {

/// One-level application of a substitution: a mapped variable is replaced
/// by its image without re-resolving, an arrow descends, and base types
/// are unchanged.
pub open spec fn spec_apply(m: Map<Seq<char>, TypeV>, t: TypeV) -> TypeV
    decreases t,
{
    match t {
        TypeV::TVar(v) => if m.dom().contains(v) {
            m[v]
        } else {
            t
        },
        TypeV::TArrow(a, b) => TypeV::TArrow(
            Box::new(spec_apply(m, *a)),
            Box::new(spec_apply(m, *b)),
        ),
        _ => t,
    }
}

/// A substitution applied to both sides of every equation.
pub open spec fn spec_apply_csts(m: Map<Seq<char>, TypeV>, cs: Seq<(TypeV, TypeV)>) -> Seq<
    (TypeV, TypeV),
> {
    cs.map_values(|c: (TypeV, TypeV)| (spec_apply(m, c.0), spec_apply(m, c.1)))
}

/// The composition `m1 ∘ m2`: every image of `m2` has `m1` applied to it
/// once, and on a key clash `m1` wins.
pub open spec fn spec_compose(m1: Map<Seq<char>, TypeV>, m2: Map<Seq<char>, TypeV>) -> Map<
    Seq<char>,
    TypeV,
> {
    Map::new(
        |k: Seq<char>| m1.dom().contains(k) || m2.dom().contains(k),
        |k: Seq<char>|
            if m1.dom().contains(k) {
                m1[k]
            } else {
                spec_apply(m1, m2[k])
            },
    )
}

/// Whether the type variable `x` occurs in `t`.
pub open spec fn spec_occurs(x: Seq<char>, t: TypeV) -> bool
    decreases t,
{
    match t {
        TypeV::TVar(v) => v == x,
        TypeV::TArrow(a, b) => spec_occurs(x, *a) || spec_occurs(x, *b),
        _ => false,
    }
}

/// The set of type variables of `t`.
pub open spec fn spec_ty_vars(t: TypeV) -> Set<Seq<char>>
    decreases t,
{
    match t {
        TypeV::TVar(v) => Set::empty().insert(v),
        TypeV::TArrow(a, b) => spec_ty_vars(*a).union(spec_ty_vars(*b)),
        _ => Set::empty(),
    }
}

/// The size of a type term.
pub open spec fn spec_ty_size(t: TypeV) -> nat
    decreases t,
{
    match t {
        TypeV::TArrow(a, b) => 1 + spec_ty_size(*a) + spec_ty_size(*b),
        _ => 1,
    }
}

/// The set of type variables of a constraint list.
pub open spec fn spec_cst_vars(cs: Seq<(TypeV, TypeV)>) -> Set<Seq<char>>
    decreases cs.len(),
{
    if cs.len() == 0 {
        Set::empty()
    } else {
        spec_ty_vars(cs[0].0).union(spec_ty_vars(cs[0].1)).union(spec_cst_vars(cs.drop_first()))
    }
}

/// The total size of a constraint list.
pub open spec fn spec_cst_size(cs: Seq<(TypeV, TypeV)>) -> nat
    decreases cs.len(),
{
    if cs.len() == 0 {
        0
    } else {
        spec_ty_size(cs[0].0) + spec_ty_size(cs[0].1) + spec_cst_size(cs.drop_first())
    }
}

/// Whether `m` solves every equation of `cs` under one-level application.
pub open spec fn spec_unifies(m: Map<Seq<char>, TypeV>, cs: Seq<(TypeV, TypeV)>) -> bool {
    forall|i: int|
        0 <= i < cs.len() ==> spec_apply(m, (#[trigger] cs[i]).0) == spec_apply(m, cs[i].1)
}

proof fn lemma_ty_vars_finite(t: TypeV)
    ensures
        spec_ty_vars(t).finite(),
    decreases t,
{
    match t {
        TypeV::TArrow(a, b) => {
            lemma_ty_vars_finite(*a);
            lemma_ty_vars_finite(*b);
        },
        _ => {},
    }
}

proof fn lemma_cst_vars_finite(cs: Seq<(TypeV, TypeV)>)
    ensures
        spec_cst_vars(cs).finite(),
    decreases cs.len(),
{
    if cs.len() > 0 {
        lemma_ty_vars_finite(cs[0].0);
        lemma_ty_vars_finite(cs[0].1);
        lemma_cst_vars_finite(cs.drop_first());
    }
}

proof fn lemma_occurs_vars(x: Seq<char>, t: TypeV)
    ensures
        spec_occurs(x, t) <==> spec_ty_vars(t).contains(x),
    decreases t,
{
    match t {
        TypeV::TArrow(a, b) => {
            lemma_occurs_vars(x, *a);
            lemma_occurs_vars(x, *b);
        },
        _ => {},
    }
}

/// The variables of any member type of a list are variables of the list.
proof fn lemma_cst_vars_member(cs: Seq<(TypeV, TypeV)>, i: int)
    requires
        0 <= i < cs.len(),
    ensures
        spec_ty_vars(cs[i].0).subset_of(spec_cst_vars(cs)),
        spec_ty_vars(cs[i].1).subset_of(spec_cst_vars(cs)),
    decreases cs.len(),
{
    if i > 0 {
        lemma_cst_vars_member(cs.drop_first(), i - 1);
        assert(cs.drop_first()[i - 1] == cs[i]);
    }
}

/// Dropping the head keeps the variables within the whole list's.
proof fn lemma_cst_vars_drop(cs: Seq<(TypeV, TypeV)>)
    requires
        cs.len() > 0,
    ensures
        spec_cst_vars(cs.drop_first()).subset_of(spec_cst_vars(cs)),
{
}

proof fn lemma_cst_size_push(cs: Seq<(TypeV, TypeV)>, c: (TypeV, TypeV))
    ensures
        spec_cst_size(cs.push(c)) == spec_cst_size(cs) + spec_ty_size(c.0) + spec_ty_size(c.1),
    decreases cs.len(),
{
    if cs.len() == 0 {
        assert(cs.push(c)[0] == c);
        assert(cs.push(c).drop_first() =~= Seq::<(TypeV, TypeV)>::empty());
        assert(spec_cst_size(cs.push(c).drop_first()) == 0);
        assert(spec_cst_size(cs.push(c)) == spec_ty_size(c.0) + spec_ty_size(c.1));
    } else {
        assert(cs.push(c).drop_first() =~= cs.drop_first().push(c));
        assert(cs.push(c)[0] == cs[0]);
        lemma_cst_size_push(cs.drop_first(), c);
        assert(spec_cst_size(cs.push(c)) == spec_ty_size(cs[0].0) + spec_ty_size(cs[0].1)
            + spec_cst_size(cs.drop_first().push(c)));
        assert(spec_cst_size(cs) == spec_ty_size(cs[0].0) + spec_ty_size(cs[0].1)
            + spec_cst_size(cs.drop_first()));
    }
}

proof fn lemma_cst_vars_push(cs: Seq<(TypeV, TypeV)>, c: (TypeV, TypeV))
    ensures
        spec_cst_vars(cs.push(c)) =~= spec_cst_vars(cs).union(
            spec_ty_vars(c.0).union(spec_ty_vars(c.1)),
        ),
    decreases cs.len(),
{
    if cs.len() == 0 {
        assert(cs.push(c)[0] == c);
        assert(cs.push(c).drop_first() =~= Seq::<(TypeV, TypeV)>::empty());
        assert(spec_cst_vars(cs.push(c).drop_first()) =~= Set::<Seq<char>>::empty());
        assert(spec_cst_vars(cs.push(c)) =~= spec_ty_vars(c.0).union(spec_ty_vars(c.1)));
        assert(spec_cst_vars(cs) =~= Set::<Seq<char>>::empty());
    } else {
        assert(cs.push(c).drop_first() =~= cs.drop_first().push(c));
        assert(cs.push(c)[0] == cs[0]);
        lemma_cst_vars_push(cs.drop_first(), c);
        assert(spec_cst_vars(cs.push(c)) =~= spec_ty_vars(cs[0].0).union(spec_ty_vars(cs[0].1))
            .union(spec_cst_vars(cs.drop_first().push(c))));
        assert(spec_cst_vars(cs) =~= spec_ty_vars(cs[0].0).union(spec_ty_vars(cs[0].1)).union(
            spec_cst_vars(cs.drop_first()),
        ));
    }
}

/// A substitution that touches no variable of `t` leaves `t` unchanged.
proof fn lemma_apply_id(m: Map<Seq<char>, TypeV>, t: TypeV)
    requires
        forall|x: Seq<char>| spec_ty_vars(t).contains(x) ==> !m.dom().contains(x),
    ensures
        spec_apply(m, t) == t,
    decreases t,
{
    match t {
        TypeV::TArrow(a, b) => {
            lemma_apply_id(m, *a);
            lemma_apply_id(m, *b);
        },
        _ => {},
    }
}

/// Applying a single-variable substitution `[x := img]` bounds the
/// variables of the result: `x` is gone (when it does not occur in `img`)
/// and only `img`'s variables can be added.
proof fn lemma_apply_single_vars(m: Map<Seq<char>, TypeV>, x: Seq<char>, img: TypeV, t: TypeV)
    requires
        m.dom() =~= Set::empty().insert(x),
        m[x] == img,
    ensures
        spec_ty_vars(spec_apply(m, t)).subset_of(
            spec_ty_vars(t).remove(x).union(spec_ty_vars(img)),
        ),
        !spec_occurs(x, img) ==> !spec_ty_vars(spec_apply(m, t)).contains(x),
    decreases t,
{
    lemma_occurs_vars(x, img);
    match t {
        TypeV::TArrow(a, b) => {
            lemma_apply_single_vars(m, x, img, *a);
            lemma_apply_single_vars(m, x, img, *b);
        },
        _ => {},
    }
}

/// The list-level counterpart of `lemma_apply_single_vars`.
proof fn lemma_apply_single_vars_csts(
    m: Map<Seq<char>, TypeV>,
    x: Seq<char>,
    img: TypeV,
    cs: Seq<(TypeV, TypeV)>,
)
    requires
        m.dom() =~= Set::empty().insert(x),
        m[x] == img,
    ensures
        spec_cst_vars(spec_apply_csts(m, cs)).subset_of(
            spec_cst_vars(cs).remove(x).union(spec_ty_vars(img)),
        ),
    decreases cs.len(),
{
    if cs.len() > 0 {
        lemma_apply_single_vars(m, x, img, cs[0].0);
        lemma_apply_single_vars(m, x, img, cs[0].1);
        lemma_apply_single_vars_csts(m, x, img, cs.drop_first());
        assert(spec_apply_csts(m, cs).drop_first() =~= spec_apply_csts(m, cs.drop_first()));
        assert(spec_apply_csts(m, cs)[0] == (spec_apply(m, cs[0].0), spec_apply(m, cs[0].1)));
    }
}

/// Compose-then-apply equals sequential application: when the domains of
/// the two substitutions are disjoint, applying `m1 ∘ m2` to a type is the
/// same as applying `m2` and then `m1`. (On a shared key the composed map
/// keeps `m1`'s image while the sequential order uses both, so the law
/// asks for disjointness.)
pub proof fn lemma_compose_then_apply(
    m1: Map<Seq<char>, TypeV>,
    m2: Map<Seq<char>, TypeV>,
    t: TypeV,
)
    requires
        m1.dom().disjoint(m2.dom()),
    ensures
        spec_apply(spec_compose(m1, m2), t) == spec_apply(m1, spec_apply(m2, t)),
    decreases t,
{
    match t {
        TypeV::TArrow(a, b) => {
            lemma_compose_then_apply(m1, m2, *a);
            lemma_compose_then_apply(m1, m2, *b);
        },
        _ => {},
    }
}

/// When `m` already equates `x` and `img`, eliminating `x` by `[x := img]`
/// before applying `m` changes nothing.
proof fn lemma_subst_elim(
    m: Map<Seq<char>, TypeV>,
    m1: Map<Seq<char>, TypeV>,
    x: Seq<char>,
    img: TypeV,
    t: TypeV,
)
    requires
        m1.dom() =~= Set::empty().insert(x),
        m1[x] == img,
        spec_apply(m, TypeV::TVar(x)) == spec_apply(m, img),
    ensures
        spec_apply(m, spec_apply(m1, t)) == spec_apply(m, t),
    decreases t,
{
    match t {
        TypeV::TArrow(a, b) => {
            lemma_subst_elim(m, m1, x, img, *a);
            lemma_subst_elim(m, m1, x, img, *b);
        },
        _ => {},
    }
}

/// A variable that occurs in, but is not equal to, an arrow type can never
/// be unified with it: the image of the arrow is always strictly larger.
proof fn lemma_occurs_apply_size(m: Map<Seq<char>, TypeV>, x: Seq<char>, t: TypeV)
    requires
        spec_occurs(x, t),
    ensures
        spec_ty_size(spec_apply(m, t)) >= spec_ty_size(spec_apply(m, TypeV::TVar(x))),
        t != TypeV::TVar(x) ==> spec_ty_size(spec_apply(m, t)) > spec_ty_size(
            spec_apply(m, TypeV::TVar(x)),
        ),
    decreases t,
{
    match t {
        TypeV::TArrow(a, b) => {
            if spec_occurs(x, *a) {
                lemma_occurs_apply_size(m, x, *a);
            } else {
                lemma_occurs_apply_size(m, x, *b);
            }
        },
        _ => {},
    }
}

/// A solution of a list also solves the list without its head.
proof fn lemma_unifies_drop(m: Map<Seq<char>, TypeV>, cs: Seq<(TypeV, TypeV)>)
    requires
        cs.len() > 0,
        spec_unifies(m, cs),
    ensures
        spec_unifies(m, cs.drop_first()),
{
    assert forall|i: int| 0 <= i < cs.drop_first().len() implies spec_apply(
        m,
        (#[trigger] cs.drop_first()[i]).0,
    ) == spec_apply(m, cs.drop_first()[i].1) by {
        assert(cs.drop_first()[i] == cs[i + 1]);
    }
}

/// Eliminating an equated variable from a list does not change whether `m`
/// solves it.
proof fn lemma_unifies_elim(
    m: Map<Seq<char>, TypeV>,
    m1: Map<Seq<char>, TypeV>,
    x: Seq<char>,
    img: TypeV,
    cs: Seq<(TypeV, TypeV)>,
)
    requires
        m1.dom() =~= Set::empty().insert(x),
        m1[x] == img,
        spec_apply(m, TypeV::TVar(x)) == spec_apply(m, img),
    ensures
        spec_unifies(m, cs) <==> spec_unifies(m, spec_apply_csts(m1, cs)),
{
    let ap = spec_apply_csts(m1, cs);
    assert(ap.len() == cs.len());
    assert forall|i: int| 0 <= i < cs.len() implies (spec_apply(m, (#[trigger] cs[i]).0)
        == spec_apply(m, cs[i].1)) == (spec_apply(m, ap[i].0) == spec_apply(m, ap[i].1)) by {
        assert(ap[i] == (spec_apply(m1, cs[i].0), spec_apply(m1, cs[i].1)));
        lemma_subst_elim(m, m1, x, img, cs[i].0);
        lemma_subst_elim(m, m1, x, img, cs[i].1);
    }
    if spec_unifies(m, cs) {
        assert forall|i: int| 0 <= i < ap.len() implies spec_apply(m, (#[trigger] ap[i]).0)
            == spec_apply(m, ap[i].1) by {
            assert(spec_apply(m, cs[i].0) == spec_apply(m, cs[i].1));
        }
    }
    if spec_unifies(m, ap) {
        assert forall|i: int| 0 <= i < cs.len() implies spec_apply(m, (#[trigger] cs[i]).0)
            == spec_apply(m, cs[i].1) by {
            assert(spec_apply(m, ap[i].0) == spec_apply(m, ap[i].1));
        }
    }
}

/// Soundness of the variable-elimination step: a solution of the applied
/// rest extends, by composition with `[x := img]`, to a solution of the
/// rest that also equates `x` with `img`.
proof fn lemma_var_case_sound(
    u: Map<Seq<char>, TypeV>,
    m1: Map<Seq<char>, TypeV>,
    x: Seq<char>,
    img: TypeV,
    rest: Seq<(TypeV, TypeV)>,
)
    requires
        m1.dom() =~= Set::empty().insert(x),
        m1[x] == img,
        !spec_occurs(x, img),
        !u.dom().contains(x),
        spec_unifies(u, spec_apply_csts(m1, rest)),
    ensures
        spec_unifies(spec_compose(u, m1), rest),
        spec_apply(spec_compose(u, m1), TypeV::TVar(x)) == spec_apply(spec_compose(u, m1), img),
{
    let sigma = spec_compose(u, m1);
    let ap = spec_apply_csts(m1, rest);
    assert(u.dom().disjoint(m1.dom()));
    assert forall|i: int| 0 <= i < rest.len() implies spec_apply(sigma, (#[trigger] rest[i]).0)
        == spec_apply(sigma, rest[i].1) by {
        lemma_compose_then_apply(u, m1, rest[i].0);
        lemma_compose_then_apply(u, m1, rest[i].1);
        assert(ap[i] == (spec_apply(m1, rest[i].0), spec_apply(m1, rest[i].1)));
        assert(spec_apply(u, ap[i].0) == spec_apply(u, ap[i].1));
    }
    lemma_compose_then_apply(u, m1, TypeV::TVar(x));
    lemma_compose_then_apply(u, m1, img);
    lemma_occurs_vars(x, img);
    lemma_apply_id(m1, img);
}

/// The variable-elimination step strictly reduces the set of variables of
/// the worklist.
proof fn lemma_var_case_measure(
    m1: Map<Seq<char>, TypeV>,
    x: Seq<char>,
    img: TypeV,
    cs0: Seq<(TypeV, TypeV)>,
    rest: Seq<(TypeV, TypeV)>,
)
    requires
        m1.dom() =~= Set::empty().insert(x),
        m1[x] == img,
        !spec_occurs(x, img),
        spec_cst_vars(cs0).contains(x),
        spec_ty_vars(img).subset_of(spec_cst_vars(cs0)),
        spec_cst_vars(rest).subset_of(spec_cst_vars(cs0)),
    ensures
        spec_cst_vars(spec_apply_csts(m1, rest)).len() < spec_cst_vars(cs0).len(),
{
    let applied = spec_cst_vars(spec_apply_csts(m1, rest));
    lemma_apply_single_vars_csts(m1, x, img, rest);
    lemma_occurs_vars(x, img);
    assert(applied.subset_of(spec_cst_vars(cs0).remove(x)));
    lemma_cst_vars_finite(cs0);
    lemma_len_subset(applied, spec_cst_vars(cs0).remove(x));
    assert(spec_cst_vars(cs0).remove(x).len() == spec_cst_vars(cs0).len() - 1);
}

/// One-level application of `sigma` to `t`, functionally.
fn apply_subst(t: Type, sigma: &TySubst) -> (r: Type)
    requires
        sigma.wf(),
    ensures
        r@ == spec_apply(sigma@, t@),
    decreases t,
{
    match t {
        Type::TVar(v) => match sigma.lookup(&v) {
            Some(t2) => t2,
            None => Type::TVar(v),
        },
        Type::TArrow(a) => {
            let TArrow { ty1, ty2 } = *a;
            Type::TArrow(
                Box::new(TArrow { ty1: apply_subst(ty1, sigma), ty2: apply_subst(ty2, sigma) }),
            )
        },
        t => t,
    }
}

impl Type {
    /// Rewrites this type in place by one-level application of `sigma`:
    /// a mapped variable becomes its image, unmapped variables and base
    /// types stay, and arrows descend. Chains are not resolved; compose
    /// substitutions for that.
    pub fn apply_ty_subst(&mut self, sigma: &TySubst)
        requires
            sigma.wf(),
        ensures
            final(self)@ == spec_apply(sigma@, old(self)@),
    {
        let cur = self.clone();
        *self = apply_subst(cur, sigma);
    }

    /// Rewrites this type in place by one-level application of `sigma`.
    pub fn ref_apply_ty_subst(&mut self, sigma: &TySubst)
        requires
            sigma.wf(),
        ensures
            final(self)@ == spec_apply(sigma@, old(self)@),
    {
        self.apply_ty_subst(sigma)
    }

    /// Whether the type variable `v` occurs in `t`: the occurs check.
    fn in_type(v: String, t: Type) -> (r: bool)
        ensures
            r == spec_occurs(v@, t@),
        decreases t,
    {
        match t {
            Type::TVar(v1) => v.eq(&v1),
            Type::TArrow(a) => {
                let TArrow { ty1, ty2 } = *a;
                Type::in_type(v.clone(), ty1) || Type::in_type(v, ty2)
            },
            _ => false,
        }
    }

    /// Applies `ts` to both sides of every constraint in `tc`.
    fn apply_ty_subst_on_tc(tc: &mut Vec<TyConstraint>, ts: &TySubst)
        requires
            ts.wf(),
        ensures
            csts_view(final(tc)@) == spec_apply_csts(ts@, csts_view(old(tc)@)),
    {
        let ghost orig = csts_view(tc@);
        let mut i: usize = 0;
        while i < tc.len()
            invariant
                ts.wf(),
                i <= tc@.len(),
                tc@.len() == orig.len(),
                forall|j: int|
                    0 <= j < tc@.len() ==> csts_view(tc@)[j] == if j < i {
                        spec_apply_csts(ts@, orig)[j]
                    } else {
                        orig[j]
                    },
            decreases tc@.len() - i,
        {
            let ghost before = tc@;
            let l = tc[i].left();
            let r = tc[i].right();
            proof {
                assert(csts_view(before)[i as int] == before[i as int]@);
                assert(l@ == orig[i as int].0 && r@ == orig[i as int].1);
            }
            let nl = apply_subst(l, ts);
            let nr = apply_subst(r, ts);
            tc.set(i, TyConstraint(nl, nr));
            proof {
                assert(spec_apply_csts(ts@, orig)[i as int] == (
                    spec_apply(ts@, orig[i as int].0),
                    spec_apply(ts@, orig[i as int].1),
                ));
                assert forall|j: int| 0 <= j < tc@.len() implies #[trigger] csts_view(tc@)[j]
                    == if j < i + 1 {
                    spec_apply_csts(ts@, orig)[j]
                } else {
                    orig[j]
                } by {
                    assert(csts_view(tc@)[j] == tc@[j]@);
                    if j == i {
                    } else {
                        assert(tc@[j] == before[j]);
                        assert(csts_view(before)[j] == before[j]@);
                    }
                }
            }
            i = i + 1;
        }
        proof {
            assert(csts_view(tc@) =~= spec_apply_csts(ts@, orig));
        }
    }
}

proof fn lemma_kvs_take_step(s: Seq<(String, Type)>, i: int)
    requires
        0 <= i < s.len(),
    ensures
        kvs_view(s.take(i + 1)) == kvs_view(s.take(i)).insert(s[i].0@, s[i].1@),
{
    assert(s.take(i + 1).drop_last() =~= s.take(i));
    assert(s.take(i + 1).last() == s[i]);
}

impl TySubst {
    /// The composition of `t1` after `t2`: `t1` is applied once to every
    /// image of `t2`, and the union is taken with `t1`'s mappings winning
    /// on a key clash.
    pub fn compose(t1: TySubst, t2: TySubst) -> (r: TySubst)
        requires
            t1.wf(),
            t2.wf(),
        ensures
            r.wf(),
            r@ == spec_compose(t1@, t2@),
    {
        let mut result = TySubst::new();
        let entries = t1.entries();
        let ghost e1 = entries@;
        let mut i: usize = 0;
        proof {
            assert(e1.take(0) =~= Seq::<(String, Type)>::empty());
        }
        while i < entries.len()
            invariant
                t1.wf(),
                i <= e1.len(),
                entries@ == e1,
                kvs_wf(e1),
                result.wf(),
                result@ == kvs_view(e1.take(i as int)),
            decreases e1.len() - i,
        {
            proof {
                lemma_kvs_take_step(e1, i as int);
            }
            result.insert(entries[i].0.clone(), entries[i].1.clone());
            i = i + 1;
        }
        proof {
            assert(e1.take(e1.len() as int) =~= e1);
            assert(result@ == t1@);
        }
        let pairs2 = t2.inner();
        let ghost e2 = pairs2@;
        let mut j: usize = 0;
        proof {
            assert(e2.take(0) =~= Seq::<(String, Type)>::empty());
            assert(spec_compose(t1@, kvs_view(e2.take(0))) =~= t1@);
        }
        while j < pairs2.len()
            invariant
                t1.wf(),
                j <= e2.len(),
                pairs2@ == e2,
                kvs_wf(e2),
                result.wf(),
                result@ == spec_compose(t1@, kvs_view(e2.take(j as int))),
            decreases e2.len() - j,
        {
            let ghost before = result@;
            let k = pairs2[j].0.clone();
            proof {
                lemma_kvs_take_step(e2, j as int);
            }
            if !t1.contains(&k) {
                let v2 = apply_subst(pairs2[j].1.clone(), &t1);
                result.insert(k, v2);
                proof {
                    assert(result@ =~= spec_compose(t1@, kvs_view(e2.take(j + 1))));
                }
            } else {
                proof {
                    assert(result@ =~= spec_compose(t1@, kvs_view(e2.take(j + 1))));
                }
            }
            j = j + 1;
        }
        proof {
            assert(e2.take(e2.len() as int) =~= e2);
        }
        result
    }

    /// The composition of `t1` after `t2`.
    pub fn ref_compose(t1: TySubst, t2: TySubst) -> (r: TySubst)
        requires
            t1.wf(),
            t2.wf(),
        ensures
            r.wf(),
            r@ == spec_compose(t1@, t2@),
    {
        TySubst::compose(t1, t2)
    }
}

impl Type {
    /// First-order unification. The result is `Some` exactly when some
    /// substitution solves every constraint under one-level application,
    /// and the returned substitution is such a solution, drawing only on
    /// the constraints' own variables. Failure comes from a base-type
    /// mismatch, a base-against-arrow equation, or the occurs check.
    pub fn unify(tc: Vec<TyConstraint>) -> (r: Option<TySubst>)
        ensures
            match r {
                Some(s) => s.wf() && spec_unifies(s@, csts_view(tc@)) && s@.dom().subset_of(
                    spec_cst_vars(csts_view(tc@)),
                ),
                None => forall|m: Map<Seq<char>, TypeV>| !spec_unifies(m, csts_view(tc@)),
            },
        decreases spec_cst_vars(csts_view(tc@)).len(), spec_cst_size(csts_view(tc@)),
    {
        let ghost cs0 = csts_view(tc@);
        if tc.len() == 0 {
            return Some(TySubst::new());
        }
        let mut work = tc;
        let c = work.remove(0);
        let ghost rest0 = csts_view(work@);
        proof {
            assert(rest0 =~= cs0.drop_first());
            assert(c@ == cs0[0]);
            lemma_cst_vars_finite(cs0);
            lemma_cst_vars_drop(cs0);
            lemma_cst_vars_member(cs0, 0);
            lemma_ty_size_pos(cs0[0].0);
            lemma_ty_size_pos(cs0[0].1);
        }
        let left = c.left();
        let right = c.right();
        if left.ty_eq(&right) {
            proof {
                lemma_len_subset(spec_cst_vars(rest0), spec_cst_vars(cs0));
            }
            let res = Type::unify(work);
            match res {
                Some(s) => {
                    proof {
                        assert forall|i: int| 0 <= i < cs0.len() implies spec_apply(
                            s@,
                            (#[trigger] cs0[i]).0,
                        ) == spec_apply(s@, cs0[i].1) by {
                            if i > 0 {
                                assert(cs0[i] == rest0[i - 1]);
                                assert(spec_apply(s@, rest0[i - 1].0) == spec_apply(
                                    s@,
                                    rest0[i - 1].1,
                                ));
                            }
                        }
                    }
                    Some(s)
                },
                None => {
                    proof {
                        assert forall|m: Map<Seq<char>, TypeV>| !spec_unifies(m, cs0) by {
                            if spec_unifies(m, cs0) {
                                lemma_unifies_drop(m, cs0);
                            }
                        }
                    }
                    None
                },
            }
        } else {
            match left {
                Type::TVar(v) => {
                    if Type::in_type(v.clone(), right.clone()) {
                        proof {
                            assert forall|m: Map<Seq<char>, TypeV>| !spec_unifies(m, cs0) by {
                                if spec_unifies(m, cs0) {
                                    assert(spec_apply(m, cs0[0].0) == spec_apply(m, cs0[0].1));
                                    lemma_occurs_apply_size(m, v@, right@);
                                }
                            }
                        }
                        None
                    } else {
                        let mut ts1 = TySubst::new();
                        ts1.insert(v.clone(), right.clone());
                        let ghost m1 = ts1@;
                        Type::apply_ty_subst_on_tc(&mut work, &ts1);
                        proof {
                            assert(m1.dom() =~= Set::<Seq<char>>::empty().insert(v@));
                            lemma_occurs_vars(v@, cs0[0].0);
                            lemma_var_case_measure(m1, v@, right@, cs0, rest0);
                        }
                        let res = Type::unify(work);
                        match res {
                            None => {
                                proof {
                                    assert forall|m: Map<Seq<char>, TypeV>| !spec_unifies(
                                        m,
                                        cs0,
                                    ) by {
                                        if spec_unifies(m, cs0) {
                                            assert(spec_apply(m, cs0[0].0) == spec_apply(
                                                m,
                                                cs0[0].1,
                                            ));
                                            lemma_unifies_drop(m, cs0);
                                            lemma_unifies_elim(m, m1, v@, right@, rest0);
                                        }
                                    }
                                }
                                None
                            },
                            Some(unified) => {
                                proof {
                                    let ghost applied = spec_apply_csts(m1, rest0);
                                    lemma_occurs_vars(v@, right@);
                                    lemma_apply_single_vars_csts(m1, v@, right@, rest0);
                                    assert(!spec_cst_vars(applied).contains(v@));
                                    assert(!unified@.dom().contains(v@));
                                    lemma_var_case_sound(unified@, m1, v@, right@, rest0);
                                }
                                let composed = TySubst::compose(unified, ts1);
                                proof {
                                    assert forall|i: int| 0 <= i < cs0.len() implies spec_apply(
                                        composed@,
                                        (#[trigger] cs0[i]).0,
                                    ) == spec_apply(composed@, cs0[i].1) by {
                                        if i > 0 {
                                            assert(cs0[i] == rest0[i - 1]);
                                        }
                                    }
                                }
                                Some(composed)
                            },
                        }
                    }
                },
                left => {
                    match right {
                        Type::TVar(v) => {
                            if Type::in_type(v.clone(), left.clone()) {
                                proof {
                                    assert forall|m: Map<Seq<char>, TypeV>| !spec_unifies(
                                        m,
                                        cs0,
                                    ) by {
                                        if spec_unifies(m, cs0) {
                                            assert(spec_apply(m, cs0[0].0) == spec_apply(
                                                m,
                                                cs0[0].1,
                                            ));
                                            lemma_occurs_apply_size(m, v@, left@);
                                        }
                                    }
                                }
                                None
                            } else {
                                let mut ts1 = TySubst::new();
                                ts1.insert(v.clone(), left.clone());
                                let ghost m1 = ts1@;
                                Type::apply_ty_subst_on_tc(&mut work, &ts1);
                                proof {
                                    assert(m1.dom() =~= Set::<Seq<char>>::empty().insert(v@));
                                    lemma_occurs_vars(v@, cs0[0].1);
                                    lemma_var_case_measure(m1, v@, left@, cs0, rest0);
                                }
                                let res = Type::unify(work);
                                match res {
                                    None => {
                                        proof {
                                            assert forall|m: Map<Seq<char>, TypeV>| !spec_unifies(
                                                m,
                                                cs0,
                                            ) by {
                                                if spec_unifies(m, cs0) {
                                                    assert(spec_apply(m, cs0[0].0) == spec_apply(
                                                        m,
                                                        cs0[0].1,
                                                    ));
                                                    lemma_unifies_drop(m, cs0);
                                                    lemma_unifies_elim(m, m1, v@, left@, rest0);
                                                }
                                            }
                                        }
                                        None
                                    },
                                    Some(unified) => {
                                        proof {
                                            let ghost applied = spec_apply_csts(m1, rest0);
                                            lemma_occurs_vars(v@, left@);
                                            lemma_apply_single_vars_csts(m1, v@, left@, rest0);
                                            assert(!spec_cst_vars(applied).contains(v@));
                                            assert(!unified@.dom().contains(v@));
                                            lemma_var_case_sound(unified@, m1, v@, left@, rest0);
                                        }
                                        let composed = TySubst::compose(unified, ts1);
                                        proof {
                                            assert forall|i: int|
                                                0 <= i < cs0.len() implies spec_apply(
                                                composed@,
                                                (#[trigger] cs0[i]).0,
                                            ) == spec_apply(composed@, cs0[i].1) by {
                                                if i > 0 {
                                                    assert(cs0[i] == rest0[i - 1]);
                                                }
                                            }
                                        }
                                        Some(composed)
                                    },
                                }
                            }
                        },
                        right => {
                            match left {
                                Type::TArrow(a1) => match right {
                                    Type::TArrow(a2) => {
                                        let TArrow { ty1: a11, ty2: a12 } = *a1;
                                        let TArrow { ty1: a21, ty2: a22 } = *a2;
                                        let ghost p1 = (a11@, a21@);
                                        let ghost p2 = (a12@, a22@);
                                        proof {
                                            assert(cs0[0].0 == TypeV::TArrow(
                                                Box::new(p1.0),
                                                Box::new(p2.0),
                                            ));
                                            assert(cs0[0].1 == TypeV::TArrow(
                                                Box::new(p1.1),
                                                Box::new(p2.1),
                                            ));
                                        }
                                        work.push(TyConstraint(a11, a21));
                                        work.push(TyConstraint(a12, a22));
                                        let ghost cs1 = csts_view(work@);
                                        proof {
                                            assert(cs1 =~= rest0.push(p1).push(p2));
                                            lemma_cst_vars_push(rest0, p1);
                                            lemma_cst_vars_push(rest0.push(p1), p2);
                                            lemma_cst_size_push(rest0, p1);
                                            lemma_cst_size_push(rest0.push(p1), p2);
                                            assert(spec_cst_vars(cs1).subset_of(
                                                spec_cst_vars(cs0),
                                            ));
                                            lemma_len_subset(
                                                spec_cst_vars(cs1),
                                                spec_cst_vars(cs0),
                                            );
                                        }
                                        let res = Type::unify(work);
                                        match res {
                                            Some(s) => {
                                                proof {
                                                    assert(spec_apply(s@, p1.0) == spec_apply(
                                                        s@,
                                                        p1.1,
                                                    )) by {
                                                        assert(cs1[cs1.len() - 2] == p1);
                                                    }
                                                    assert(spec_apply(s@, p2.0) == spec_apply(
                                                        s@,
                                                        p2.1,
                                                    )) by {
                                                        assert(cs1[cs1.len() - 1] == p2);
                                                    }
                                                    assert forall|i: int|
                                                        0 <= i < cs0.len() implies spec_apply(
                                                        s@,
                                                        (#[trigger] cs0[i]).0,
                                                    ) == spec_apply(s@, cs0[i].1) by {
                                                        if i > 0 {
                                                            assert(cs0[i] == rest0[i - 1]);
                                                            assert(rest0.push(p1)[i - 1]
                                                                == rest0[i - 1]);
                                                            assert(cs1[i - 1] == rest0[i - 1]);
                                                        }
                                                    }
                                                }
                                                Some(s)
                                            },
                                            None => {
                                                proof {
                                                    assert forall|m: Map<Seq<char>, TypeV>|
                                                        !spec_unifies(m, cs0) by {
                                                        if spec_unifies(m, cs0) {
                                                            assert(spec_apply(m, cs0[0].0)
                                                                == spec_apply(m, cs0[0].1));
                                                            lemma_unifies_drop(m, cs0);
                                                            assert(spec_apply(m, p1.0)
                                                                == spec_apply(m, p1.1)
                                                                && spec_apply(m, p2.0)
                                                                == spec_apply(m, p2.1)) by {
                                                                assert(spec_apply(m, cs0[0].0)
                                                                    == TypeV::TArrow(
                                                                    Box::new(spec_apply(m, p1.0)),
                                                                    Box::new(spec_apply(m, p2.0)),
                                                                ));
                                                                assert(spec_apply(m, cs0[0].1)
                                                                    == TypeV::TArrow(
                                                                    Box::new(spec_apply(m, p1.1)),
                                                                    Box::new(spec_apply(m, p2.1)),
                                                                ));
                                                            }
                                                            assert forall|i: int|
                                                                0 <= i < cs1.len() implies
                                                                spec_apply(
                                                                m,
                                                                (#[trigger] cs1[i]).0,
                                                            ) == spec_apply(m, cs1[i].1) by {
                                                                if i < cs1.len() - 2 {
                                                                    assert(cs1[i] == rest0[i]);
                                                                    assert(rest0[i] == cs0[i + 1]);
                                                                } else if i == cs1.len() - 2 {
                                                                    assert(cs1[i] == p1);
                                                                } else {
                                                                    assert(cs1[i] == p2);
                                                                }
                                                            }
                                                            assert(spec_unifies(m, cs1));
                                                        }
                                                    }
                                                }
                                                None
                                            },
                                        }
                                    },
                                    right => {
                                        proof {
                                            assert forall|m: Map<Seq<char>, TypeV>| !spec_unifies(
                                                m,
                                                cs0,
                                            ) by {
                                                if spec_unifies(m, cs0) {
                                                    assert(spec_apply(m, cs0[0].0) == spec_apply(
                                                        m,
                                                        cs0[0].1,
                                                    ));
                                                }
                                            }
                                        }
                                        None
                                    },
                                },
                                left => {
                                    proof {
                                        assert forall|m: Map<Seq<char>, TypeV>| !spec_unifies(
                                            m,
                                            cs0,
                                        ) by {
                                            if spec_unifies(m, cs0) {
                                                assert(spec_apply(m, cs0[0].0) == spec_apply(
                                                    m,
                                                    cs0[0].1,
                                                ));
                                            }
                                        }
                                    }
                                    None
                                },
                            }
                        },
                    }
                },
            }
        }
    }
}

impl Type {
    /// First-order unification.
    pub fn ref_unify(tc: Vec<TyConstraint>) -> (r: Option<TySubst>)
        ensures
            match r {
                Some(s) => s.wf() && spec_unifies(s@, csts_view(tc@)) && s@.dom().subset_of(
                    spec_cst_vars(csts_view(tc@)),
                ),
                None => forall|m: Map<Seq<char>, TypeV>| !spec_unifies(m, csts_view(tc@)),
            },
    {
        Type::unify(tc)
    }
}

proof fn lemma_ty_size_pos(t: TypeV)
    ensures
        spec_ty_size(t) >= 1,
{
}

impl crate::Exp {
    /// End-to-end constraint-based inference on this untyped term: it is
    /// annotated with fresh variables, constraints are generated under the
    /// empty environment, the constraints are unified, and the resulting
    /// substitution is applied once to the generated type. The result is
    /// `Some` exactly when generation succeeds and the constraints have a
    /// solution.
    pub fn ty_infer_c(&self) -> (r: Option<Type>)
        requires
            crate::typing::spec_none_annotated(self@),
            !crate::typing::spec_all_annotated(self@),
            crate::constraints::spec_num_lambdas(self@) + crate::constraints::spec_num_apps(self@)
                <= u32::MAX,
        ensures
            ({
                let ann = crate::constraints::spec_annotate(self@, 0);
                match crate::constraints::spec_gen(
                    ann.0,
                    Map::<Seq<char>, TypeV>::empty(),
                    ann.1,
                ) {
                    None => r is None,
                    Some(g) => match r {
                        Some(t) => exists|m: Map<Seq<char>, TypeV>|
                            #[trigger] spec_unifies(m, g.2) && spec_apply(m, g.1) == t@,
                        None => forall|m: Map<Seq<char>, TypeV>| !spec_unifies(m, g.2),
                    },
                }
            }),
    {
        proof {
            crate::constraints::lemma_annotate_count(self@, 0);
            crate::constraints::lemma_annotate_apps(self@, 0);
        }
        let ghost ann = crate::constraints::spec_annotate(self@, 0);
        let mut e = self.clone();
        let n = e.annotate_term();
        proof {
            assert(e@ == ann.0);
            assert(n as nat == ann.1);
        }
        let mut env = crate::type_::Env::new();
        match e.infer_constraints(&mut env, n) {
            None => None,
            Some((_n2, t, tcs)) => {
                let ghost gcs = tcs@;
                let ghost gty = t@;
                proof {
                    assert(crate::constraints::spec_gen(
                        ann.0,
                        Map::<Seq<char>, TypeV>::empty(),
                        ann.1,
                    ) is Some);
                    assert((crate::constraints::spec_gen(
                        ann.0,
                        Map::<Seq<char>, TypeV>::empty(),
                        ann.1,
                    )->0).1 == gty);
                    assert((crate::constraints::spec_gen(
                        ann.0,
                        Map::<Seq<char>, TypeV>::empty(),
                        ann.1,
                    )->0).2 == gcs);
                }
                match Type::unify(tcs.inner()) {
                    None => None,
                    Some(ts) => {
                        let mut t2 = t;
                        t2.apply_ty_subst(&ts);
                        proof {
                            assert(spec_unifies(ts@, gcs) && spec_apply(ts@, gty) == t2@);
                        }
                        Some(t2)
                    },
                }
            },
        }
    }

    /// End-to-end constraint-based inference on this untyped term.
    pub fn ref_ty_infer_c(&self) -> (r: Option<Type>)
        requires
            crate::typing::spec_none_annotated(self@),
            !crate::typing::spec_all_annotated(self@),
            crate::constraints::spec_num_lambdas(self@) + crate::constraints::spec_num_apps(self@)
                <= u32::MAX,
        ensures
            ({
                let ann = crate::constraints::spec_annotate(self@, 0);
                match crate::constraints::spec_gen(
                    ann.0,
                    Map::<Seq<char>, TypeV>::empty(),
                    ann.1,
                ) {
                    None => r is None,
                    Some(g) => match r {
                        Some(t) => exists|m: Map<Seq<char>, TypeV>|
                            #[trigger] spec_unifies(m, g.2) && spec_apply(m, g.1) == t@,
                        None => forall|m: Map<Seq<char>, TypeV>| !spec_unifies(m, g.2),
                    },
                }
            }),
    {
        self.ty_infer_c()
    }
}

} // verus!
