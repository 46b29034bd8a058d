//! The arrow (function) type node.

use vstd::prelude::*;

use super::{Type, TypeV};

verus! {

/// The payload of an arrow type `ty1 -> ty2`.
#[derive(Debug, PartialEq, Eq)]
pub struct TArrow {
    pub ty1: Type,
    pub ty2: Type,
}

impl Clone for TArrow {
    fn clone(&self) -> (r: TArrow)
        ensures
            r.ty1@ == self.ty1@,
            r.ty2@ == self.ty2@,
    {
        TArrow { ty1: self.ty1.clone(), ty2: self.ty2.clone() }
    }
}

impl TArrow {
    /// The arrow node `ty1 -> ty2` as a bare pair.
    pub fn new(ty1: Type, ty2: Type) -> (r: TArrow)
        ensures
            r.ty1@ == ty1@,
            r.ty2@ == ty2@,
    {
        TArrow { ty1, ty2 }
    }

    /// The arrow type `ty1 -> ty2` as a `Type`.
    pub fn build(ty1: Type, ty2: Type) -> (r: Type)
        ensures
            r@ == TypeV::TArrow(Box::new(ty1@), Box::new(ty2@)),
    {
        Type::TArrow(Box::new(TArrow { ty1, ty2 }))
    }
}

} // verus!
