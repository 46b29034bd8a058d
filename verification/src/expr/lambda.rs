//! The lambda abstraction node.

use vstd::prelude::*;

use crate::type_::{Type, TypeV};
use crate::{Exp, ExpV};

verus! {

/// The payload of a lambda abstraction: `λarg. exp`, with an optional type
/// annotation on the bound variable. An annotation must be present on every
/// binder of a term or on none of them.
#[derive(Debug, PartialEq, Eq)]
pub struct Lambda {
    pub arg: String,
    pub exp: Exp,
    pub ty: Option<Type>,
}

/// The view of an optional annotation.
pub open spec fn opt_type_view(t: &Option<Type>) -> Option<TypeV> {
    match t {
        Some(t0) => Some(t0@),
        None => None,
    }
}

impl Clone for Lambda {
    fn clone(&self) -> (r: Lambda)
        ensures
            r.arg@ == self.arg@,
            r.exp@ == self.exp@,
            opt_type_view(&r.ty) == opt_type_view(&self.ty),
    {
        let ty: Option<Type> = match &self.ty {
            Some(t) => Some(t.clone()),
            None => None,
        };
        Lambda { arg: self.arg.clone(), exp: self.exp.clone(), ty }
    }
}

impl Lambda {
    /// The unannotated abstraction node `λarg. exp`.
    pub fn new(arg: String, exp: Exp) -> (r: Lambda)
        ensures
            r.arg@ == arg@,
            r.exp@ == exp@,
            r.ty is None,
    {
        Lambda { arg, exp, ty: None }
    }

    /// The annotated abstraction node `λarg: ty. exp`.
    pub fn new_with_type(arg: String, exp: Exp, ty: Type) -> (r: Lambda)
        ensures
            r.arg@ == arg@,
            r.exp@ == exp@,
            opt_type_view(&r.ty) == Some(ty@),
    {
        Lambda { arg, exp, ty: Some(ty) }
    }

    /// The unannotated abstraction node, boxed.
    pub fn new_with_box(arg: String, exp: Exp) -> (r: Box<Lambda>)
        ensures
            r.arg@ == arg@,
            r.exp@ == exp@,
            r.ty is None,
    {
        Box::new(Lambda { arg, exp, ty: None })
    }

    /// The unannotated abstraction `λarg. exp` as an `Exp`.
    pub fn build(arg: &str, exp: Exp) -> (r: Exp)
        ensures
            r@ == ExpV::Lambda(arg@, None, Box::new(exp@)),
    {
        Exp::Lambda(Box::new(Lambda { arg: arg.to_owned(), exp, ty: None }))
    }

    /// The annotated abstraction `λarg: ty. exp` as an `Exp`.
    pub fn build_with_type(arg: &str, exp: Exp, ty: Type) -> (r: Exp)
        ensures
            r@ == ExpV::Lambda(arg@, Some(ty@), Box::new(exp@)),
    {
        Exp::Lambda(Box::new(Lambda { arg: arg.to_owned(), exp, ty: Some(ty) }))
    }

    /// Whether this abstraction's binder carries a type annotation.
    pub fn typed(&self) -> (r: bool)
        ensures
            r == (opt_type_view(&self.ty) is Some),
    {
        self.ty.is_some()
    }
}

} // verus!
