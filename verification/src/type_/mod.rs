//! Simple types for the calculus, together with type constraints, typing
//! environments and type substitutions.
//!
//! Types are abstracted by [`TypeV`]; environments and substitutions by
//! `Map<Seq<char>, TypeV>`.

use vstd::prelude::*;

pub mod tarrow;

use self::tarrow::TArrow;

verus! {

/// The simple types over which both type services operate.
#[derive(Debug, PartialEq, Eq)]
pub enum Type {
    /// A type variable, named by an opaque string.
    TVar(String),
    /// An arrow (function) type.
    TArrow(Box<TArrow>),
    /// The integer type.
    TInt,
    /// The boolean type.
    TBool,
    /// A sentinel that never equals a real type; used as the fallback of
    /// environment look-ups that must not accidentally succeed.
    TDummy,
}

/// The mathematical abstraction of a simple type.
#[verifier::ext_equal]
pub enum TypeV {
    TVar(Seq<char>),
    TArrow(Box<TypeV>, Box<TypeV>),
    TInt,
    TBool,
    TDummy,
}

impl View for Type {
    type V = TypeV;

    open spec fn view(&self) -> TypeV {
        type_view(self)
    }
}

/// The view of a type, by structural recursion.
pub open spec fn type_view(t: &Type) -> TypeV
    decreases t,
{
    match t {
        Type::TVar(v) => TypeV::TVar(v@),
        Type::TArrow(a) => TypeV::TArrow(Box::new(type_view(&a.ty1)), Box::new(type_view(&a.ty2))),
        Type::TInt => TypeV::TInt,
        Type::TBool => TypeV::TBool,
        Type::TDummy => TypeV::TDummy,
    }
}

impl Clone for Type {
    /// A deep copy whose view equals the original's.
    fn clone(&self) -> (r: Type)
        ensures
            r@ == self@,
        decreases self,
    {
        match self {
            Type::TVar(v) => Type::TVar(v.clone()),
            Type::TArrow(a) => Type::TArrow(
                Box::new(TArrow { ty1: a.ty1.clone(), ty2: a.ty2.clone() }),
            ),
            Type::TInt => Type::TInt,
            Type::TBool => Type::TBool,
            Type::TDummy => Type::TDummy,
        }
    }
}

impl Type {
    /// Whether the type is a type variable.
    pub fn is_var(&self) -> (r: bool)
        ensures
            r == (self@ is TVar),
    {
        match self {
            Type::TVar(_) => true,
            _ => false,
        }
    }

    /// Whether the type is an arrow type.
    pub fn is_arrow(&self) -> (r: bool)
        ensures
            r == (self@ is TArrow),
    {
        match self {
            Type::TArrow(_) => true,
            _ => false,
        }
    }

    /// Whether the type is the integer type.
    pub fn is_int(&self) -> (r: bool)
        ensures
            r == (self@ is TInt),
    {
        match self {
            Type::TInt => true,
            _ => false,
        }
    }

    /// Whether the type is the boolean type.
    pub fn is_bool(&self) -> (r: bool)
        ensures
            r == (self@ is TBool),
    {
        match self {
            Type::TBool => true,
            _ => false,
        }
    }

    /// Structural equality of two types, decided on their views.
    pub fn ty_eq(&self, other: &Type) -> (r: bool)
        ensures
            r == (self@ == other@),
        decreases self,
    {
        match self {
            Type::TVar(a) => match other {
                Type::TVar(b) => a.eq(b),
                _ => false,
            },
            Type::TArrow(a) => match other {
                Type::TArrow(b) => a.ty1.ty_eq(&b.ty1) && a.ty2.ty_eq(&b.ty2),
                _ => false,
            },
            Type::TInt => other.is_int(),
            Type::TBool => other.is_bool(),
            Type::TDummy => match other {
                Type::TDummy => true,
                _ => false,
            },
        }
    }
}

/// A type constraint: an equation between two types.
#[derive(Debug, PartialEq, Eq)]
pub struct TyConstraint(pub Type, pub Type);

impl View for TyConstraint {
    type V = (TypeV, TypeV);

    open spec fn view(&self) -> (TypeV, TypeV) {
        (self.0@, self.1@)
    }
}

impl Clone for TyConstraint {
    fn clone(&self) -> (r: TyConstraint)
        ensures
            r@ == self@,
    {
        TyConstraint(self.0.clone(), self.1.clone())
    }
}

impl TyConstraint {
    /// The equation `t1 = t2`.
    pub fn build(t1: Type, t2: Type) -> (r: TyConstraint)
        ensures
            r@ == (t1@, t2@),
    {
        TyConstraint(t1, t2)
    }

    /// The left-hand side of the equation.
    pub fn left(&self) -> (r: Type)
        ensures
            r@ == self@.0,
    {
        self.0.clone()
    }

    /// The right-hand side of the equation.
    pub fn right(&self) -> (r: Type)
        ensures
            r@ == self@.1,
    {
        self.1.clone()
    }

    /// Structural equality of two constraints, decided on their views.
    pub fn cst_eq(&self, other: &TyConstraint) -> (r: bool)
        ensures
            r == (self@ == other@),
    {
        self.0.ty_eq(&other.0) && self.1.ty_eq(&other.1)
    }
}

/// The view of a constraint list: each constraint as a pair of type views.
pub open spec fn csts_view(s: Seq<TyConstraint>) -> Seq<(TypeV, TypeV)> {
    s.map_values(|c: TyConstraint| c@)
}

/// The concatenation of the views of a sequence of constraint collections.
pub open spec fn merged_view(s: Seq<TyConstraints>) -> Seq<(TypeV, TypeV)>
    decreases s.len(),
{
    if s.len() == 0 {
        Seq::empty()
    } else {
        s[0]@ + merged_view(s.drop_first())
    }
}

/// An ordered collection of type constraints.
#[derive(Debug, PartialEq, Eq)]
pub struct TyConstraints(pub Vec<TyConstraint>);

impl View for TyConstraints {
    type V = Seq<(TypeV, TypeV)>;

    open spec fn view(&self) -> Seq<(TypeV, TypeV)> {
        csts_view(self.0@)
    }
}

impl Clone for TyConstraints {
    fn clone(&self) -> (r: TyConstraints)
        ensures
            r@ == self@,
    {
        let mut v: Vec<TyConstraint> = Vec::new();
        let mut i: usize = 0;
        while i < self.0.len()
            invariant
                i <= self.0.len(),
                v@.len() == i as nat,
                forall|j: int| 0 <= j < i ==> v@[j]@ == self.0@[j]@,
            decreases self.0.len() - i,
        {
            v.push(self.0[i].clone());
            i = i + 1;
        }
        proof {
            assert(csts_view(v@) =~= csts_view(self.0@));
        }
        TyConstraints(v)
    }
}

impl TyConstraints {
    /// The collection holding exactly the given constraints, in order.
    pub fn build(v: Vec<TyConstraint>) -> (r: TyConstraints)
        ensures
            r@ == csts_view(v@),
    {
        TyConstraints(v)
    }

    /// The underlying vector, consumed.
    pub fn inner(self) -> (r: Vec<TyConstraint>)
        ensures
            csts_view(r@) == self@,
    {
        self.0
    }

    /// A shared borrow of the underlying vector.
    pub fn inner_ref(&self) -> (r: &Vec<TyConstraint>)
        ensures
            csts_view(r@) == self@,
    {
        &self.0
    }

    /// Whether some constraint of the collection equals `t` structurally.
    pub fn contains(&self, t: &TyConstraint) -> (r: bool)
        ensures
            r == self@.contains(t@),
    {
        let mut i: usize = 0;
        while i < self.0.len()
            invariant
                i <= self.0.len(),
                forall|j: int| 0 <= j < i ==> self@[j] != t@,
            decreases self.0.len() - i,
        {
            if self.0[i].cst_eq(t) {
                assert(self@[i as int] == t@);
                return true;
            }
            i = i + 1;
        }
        false
    }

    /// The concatenation of the given collections, in order.
    pub fn merge(v: Vec<TyConstraints>) -> (r: TyConstraints)
        ensures
            r@ == merged_view(v@),
    {
        let ghost orig = v@;
        let mut merged: Vec<TyConstraint> = Vec::new();
        let mut rest = v;
        proof {
            assert(csts_view(merged@) + merged_view(rest@) =~= merged_view(orig));
        }
        while rest.len() > 0
            invariant
                merged_view(orig) == csts_view(merged@) + merged_view(rest@),
            decreases rest@.len(),
        {
            let ghost before = rest@;
            let mut c = rest.remove(0);
            proof {
                assert(before.remove(0) =~= before.drop_first());
                assert(csts_view(merged@ + c.0@) =~= csts_view(merged@) + c@);
                assert(csts_view(merged@) + (c@ + merged_view(rest@)) =~= (csts_view(merged@)
                    + c@) + merged_view(rest@));
            }
            merged.append(&mut c.0);
        }
        proof {
            assert(csts_view(merged@) + merged_view(rest@) =~= csts_view(merged@));
        }
        TyConstraints(merged)
    }

    /// The empty collection.
    pub fn empty() -> (r: TyConstraints)
        ensures
            r@ == Seq::<(TypeV, TypeV)>::empty(),
    {
        TyConstraints(Vec::new())
    }

    /// How many constraints the collection holds.
    pub fn len(&self) -> (r: usize)
        ensures
            r == self@.len(),
    {
        self.0.len()
    }
}

/// The finite map abstracted by a sequence of key/value pairs: later pairs
/// win on a key clash (well-formed sequences have none).
pub open spec fn kvs_view(s: Seq<(String, Type)>) -> Map<Seq<char>, TypeV>
    decreases s.len(),
{
    if s.len() == 0 {
        Map::empty()
    } else {
        kvs_view(s.drop_last()).insert(s.last().0@, s.last().1@)
    }
}

/// Well-formedness of a pair sequence: no two pairs share a key.
pub open spec fn kvs_wf(s: Seq<(String, Type)>) -> bool {
    forall|i: int, j: int| 0 <= i < j < s.len() ==> s[i].0@ != s[j].0@
}

proof fn lemma_kvs_dom(s: Seq<(String, Type)>, k: Seq<char>)
    ensures
        kvs_view(s).dom().contains(k) <==> exists|i: int|
            0 <= i < s.len() && #[trigger] s[i].0@ == k,
        kvs_view(s).dom().finite(),
    decreases s.len(),
{
    if s.len() > 0 {
        lemma_kvs_dom(s.drop_last(), k);
        if s.last().0@ == k {
            assert(s[s.len() - 1].0@ == k);
        } else {
            assert forall|i: int| 0 <= i < s.len() && #[trigger] s[i].0@ == k implies 0 <= i < s.len()
                - 1 && s.drop_last()[i].0@ == k by {
                assert(i != s.len() - 1);
            }
        }
    }
}

proof fn lemma_kvs_get(s: Seq<(String, Type)>, i: int)
    requires
        kvs_wf(s),
        0 <= i < s.len(),
    ensures
        kvs_view(s).dom().contains(s[i].0@),
        kvs_view(s)[s[i].0@] == s[i].1@,
    decreases s.len(),
{
    if i < s.len() - 1 {
        assert(kvs_wf(s.drop_last()));
        lemma_kvs_get(s.drop_last(), i);
        assert(s[i].0@ != s.last().0@);
    }
}

proof fn lemma_kvs_update(s: Seq<(String, Type)>, i: int, v: (String, Type))
    requires
        kvs_wf(s),
        0 <= i < s.len(),
        v.0@ == s[i].0@,
    ensures
        kvs_view(s.update(i, v)) == kvs_view(s).insert(v.0@, v.1@),
        kvs_wf(s.update(i, v)),
    decreases s.len(),
{
    let s2 = s.update(i, v);
    if i == s.len() - 1 {
        assert(s2.drop_last() =~= s.drop_last());
        assert(kvs_view(s2) =~= kvs_view(s).insert(v.0@, v.1@));
    } else {
        assert(kvs_wf(s.drop_last()));
        lemma_kvs_update(s.drop_last(), i, v);
        assert(s2.drop_last() =~= s.drop_last().update(i, v));
        assert(s2.last() == s.last());
        assert(v.0@ != s.last().0@);
        assert(kvs_view(s2) =~= kvs_view(s).insert(v.0@, v.1@));
    }
}

proof fn lemma_kvs_push(s: Seq<(String, Type)>, v: (String, Type))
    requires
        kvs_wf(s),
        forall|i: int| 0 <= i < s.len() ==> #[trigger] s[i].0@ != v.0@,
    ensures
        kvs_view(s.push(v)) == kvs_view(s).insert(v.0@, v.1@),
        kvs_wf(s.push(v)),
{
    assert(s.push(v).drop_last() =~= s);
    assert(s.push(v).last() == v);
}

proof fn lemma_kvs_remove(s: Seq<(String, Type)>, i: int)
    requires
        kvs_wf(s),
        0 <= i < s.len(),
    ensures
        kvs_view(s.remove(i)) == kvs_view(s).remove(s[i].0@),
        kvs_wf(s.remove(i)),
    decreases s.len(),
{
    let s2 = s.remove(i);
    lemma_kvs_dom(s.drop_last(), s[i].0@);
    if i == s.len() - 1 {
        assert(s2 =~= s.drop_last());
        assert(kvs_view(s2) =~= kvs_view(s).remove(s[i].0@));
    } else {
        assert(kvs_wf(s.drop_last()));
        lemma_kvs_remove(s.drop_last(), i);
        assert(s2.drop_last() =~= s.drop_last().remove(i));
        assert(s2.last() == s.last());
        assert(s[i].0@ != s.last().0@);
        assert(kvs_view(s2) =~= kvs_view(s).remove(s[i].0@));
    }
}

proof fn lemma_kvs_len(s: Seq<(String, Type)>)
    requires
        kvs_wf(s),
    ensures
        kvs_view(s).dom().len() == s.len(),
    decreases s.len(),
{
    if s.len() > 0 {
        assert(kvs_wf(s.drop_last()));
        lemma_kvs_len(s.drop_last());
        lemma_kvs_dom(s.drop_last(), s.last().0@);
    }
}

/// Scans for a pair whose key has the view of `key`.
fn kvs_find(v: &Vec<(String, Type)>, key: &String) -> (r: Option<usize>)
    ensures
        match r {
            Some(i) => i < v@.len() && v@[i as int].0@ == key@,
            None => forall|j: int| 0 <= j < v@.len() ==> #[trigger] v@[j].0@ != key@,
        },
{
    let mut i: usize = 0;
    while i < v.len()
        invariant
            i <= v@.len(),
            forall|j: int| 0 <= j < i ==> #[trigger] v@[j].0@ != key@,
        decreases v@.len() - i,
    {
        if v[i].0.eq(key) {
            return Some(i);
        }
        i = i + 1;
    }
    None
}

fn kvs_lookup(v: &Vec<(String, Type)>, key: &String) -> (r: Option<Type>)
    requires
        kvs_wf(v@),
    ensures
        match r {
            Some(t) => kvs_view(v@).dom().contains(key@) && t@ == kvs_view(v@)[key@],
            None => !kvs_view(v@).dom().contains(key@),
        },
{
    proof {
        lemma_kvs_dom(v@, key@);
    }
    match kvs_find(v, key) {
        Some(i) => {
            proof {
                lemma_kvs_get(v@, i as int);
            }
            Some(v[i].1.clone())
        },
        None => None,
    }
}

fn kvs_insert(v: &mut Vec<(String, Type)>, key: String, ty: Type) -> (r: Option<Type>)
    requires
        kvs_wf(old(v)@),
    ensures
        kvs_wf(final(v)@),
        kvs_view(final(v)@) == kvs_view(old(v)@).insert(key@, ty@),
        match r {
            Some(t) => kvs_view(old(v)@).dom().contains(key@) && t@ == kvs_view(old(v)@)[key@],
            None => !kvs_view(old(v)@).dom().contains(key@),
        },
{
    proof {
        lemma_kvs_dom(v@, key@);
    }
    match kvs_find(v, &key) {
        Some(i) => {
            proof {
                lemma_kvs_get(v@, i as int);
                lemma_kvs_update(v@, i as int, (key, ty));
            }
            let prev = v[i].1.clone();
            v.set(i, (key, ty));
            Some(prev)
        },
        None => {
            proof {
                lemma_kvs_push(v@, (key, ty));
            }
            v.push((key, ty));
            None
        },
    }
}

fn kvs_remove(v: &mut Vec<(String, Type)>, key: &String) -> (r: Option<Type>)
    requires
        kvs_wf(old(v)@),
    ensures
        kvs_wf(final(v)@),
        kvs_view(final(v)@) == kvs_view(old(v)@).remove(key@),
        match r {
            Some(t) => kvs_view(old(v)@).dom().contains(key@) && t@ == kvs_view(old(v)@)[key@],
            None => !kvs_view(old(v)@).dom().contains(key@),
        },
{
    proof {
        lemma_kvs_dom(v@, key@);
    }
    match kvs_find(v, key) {
        Some(i) => {
            proof {
                lemma_kvs_get(v@, i as int);
                lemma_kvs_remove(v@, i as int);
            }
            let pair = v.remove(i);
            Some(pair.1)
        },
        None => {
            proof {
                assert(kvs_view(v@).remove(key@) =~= kvs_view(v@));
            }
            None
        },
    }
}

/// The typing context used by the checker and the constraint generator: a
/// finite map from term-variable names to types.
#[derive(Debug)]
pub struct Env {
    pairs: Vec<(String, Type)>,
}

impl View for Env {
    type V = Map<Seq<char>, TypeV>;

    closed spec fn view(&self) -> Map<Seq<char>, TypeV> {
        kvs_view(self.pairs@)
    }
}

impl Env {
    /// Well-formedness: no binding's key occurs twice. Every constructor
    /// establishes this and every operation preserves it.
    pub closed spec fn wf(&self) -> bool {
        kvs_wf(self.pairs@)
    }

    /// The empty environment.
    pub fn new() -> (r: Env)
        ensures
            r.wf(),
            r@ == Map::<Seq<char>, TypeV>::empty(),
    {
        Env { pairs: Vec::new() }
    }

    /// Binds `key` to `ty`, returning the binding it replaces, if any.
    pub fn insert(&mut self, key: String, ty: Type) -> (r: Option<Type>)
        requires
            old(self).wf(),
        ensures
            final(self).wf(),
            final(self)@ == old(self)@.insert(key@, ty@),
            match r {
                Some(t) => old(self)@.dom().contains(key@) && t@ == old(self)@[key@],
                None => !old(self)@.dom().contains(key@),
            },
    {
        kvs_insert(&mut self.pairs, key, ty)
    }

    /// Removes the binding of `key`, returning it, if any.
    pub fn remove(&mut self, key: String) -> (r: Option<Type>)
        requires
            old(self).wf(),
        ensures
            final(self).wf(),
            final(self)@ == old(self)@.remove(key@),
            match r {
                Some(t) => old(self)@.dom().contains(key@) && t@ == old(self)@[key@],
                None => !old(self)@.dom().contains(key@),
            },
    {
        kvs_remove(&mut self.pairs, &key)
    }

    /// The type bound to `key`, if any.
    pub fn lookup(&self, key: &String) -> (r: Option<Type>)
        requires
            self.wf(),
        ensures
            match r {
                Some(t) => self@.dom().contains(key@) && t@ == self@[key@],
                None => !self@.dom().contains(key@),
            },
    {
        kvs_lookup(&self.pairs, key)
    }
}

/// A type substitution: a finite map from type-variable names to types.
/// A single application is one-level (non-recursive); chains are resolved
/// by composition instead.
#[derive(Debug)]
pub struct TySubst {
    pairs: Vec<(String, Type)>,
}

impl View for TySubst {
    type V = Map<Seq<char>, TypeV>;

    closed spec fn view(&self) -> Map<Seq<char>, TypeV> {
        kvs_view(self.pairs@)
    }
}

impl TySubst {
    /// Well-formedness: no key occurs twice. Every constructor establishes
    /// this and every operation preserves it.
    pub closed spec fn wf(&self) -> bool {
        kvs_wf(self.pairs@)
    }

    /// The identity (empty) substitution.
    pub fn new() -> (r: TySubst)
        ensures
            r.wf(),
            r@ == Map::<Seq<char>, TypeV>::empty(),
    {
        TySubst { pairs: Vec::new() }
    }

    /// Maps `key` to `ty`, returning the mapping it replaces, if any.
    pub fn insert(&mut self, key: String, ty: Type) -> (r: Option<Type>)
        requires
            old(self).wf(),
        ensures
            final(self).wf(),
            final(self)@ == old(self)@.insert(key@, ty@),
            match r {
                Some(t) => old(self)@.dom().contains(key@) && t@ == old(self)@[key@],
                None => !old(self)@.dom().contains(key@),
            },
    {
        kvs_insert(&mut self.pairs, key, ty)
    }

    /// Removes the mapping of `key`, returning it, if any.
    pub fn remove(&mut self, key: String) -> (r: Option<Type>)
        requires
            old(self).wf(),
        ensures
            final(self).wf(),
            final(self)@ == old(self)@.remove(key@),
            match r {
                Some(t) => old(self)@.dom().contains(key@) && t@ == old(self)@[key@],
                None => !old(self)@.dom().contains(key@),
            },
    {
        kvs_remove(&mut self.pairs, &key)
    }

    /// The type mapped to `key`, if any.
    pub fn lookup(&self, key: &String) -> (r: Option<Type>)
        requires
            self.wf(),
        ensures
            match r {
                Some(t) => self@.dom().contains(key@) && t@ == self@[key@],
                None => !self@.dom().contains(key@),
            },
    {
        kvs_lookup(&self.pairs, key)
    }

    /// Whether the substitution maps `key`.
    pub fn contains(&self, key: &String) -> (r: bool)
        requires
            self.wf(),
        ensures
            r == self@.dom().contains(key@),
    {
        proof {
            lemma_kvs_dom(self.pairs@, key@);
        }
        match kvs_find(&self.pairs, key) {
            Some(i) => {
                proof {
                    lemma_kvs_get(self.pairs@, i as int);
                }
                true
            },
            None => false,
        }
    }

    /// How many type variables the substitution maps.
    pub fn len(&self) -> (r: usize)
        requires
            self.wf(),
        ensures
            r == self@.dom().len(),
    {
        proof {
            lemma_kvs_len(self.pairs@);
        }
        self.pairs.len()
    }

    /// The underlying key/value pairs, consumed.
    pub fn inner(self) -> (r: Vec<(String, Type)>)
        requires
            self.wf(),
        ensures
            kvs_wf(r@),
            kvs_view(r@) == self@,
    {
        self.pairs
    }

    /// Replaces the contents with the given pairs, which must not repeat a
    /// key.
    pub fn replace(&mut self, new: Vec<(String, Type)>)
        requires
            kvs_wf(new@),
        ensures
            final(self).wf(),
            final(self)@ == kvs_view(new@),
    {
        self.pairs = new;
    }

    /// A shared borrow of the underlying pairs.
    pub(crate) fn entries(&self) -> (r: &Vec<(String, Type)>)
        requires
            self.wf(),
        ensures
            kvs_wf(r@),
            kvs_view(r@) == self@,
    {
        &self.pairs
    }
}

} // verus!
