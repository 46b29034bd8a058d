//! A pairing node for two expressions.

use vstd::prelude::*;

use crate::Exp;

verus! {

/// A pair of expressions, kept for encodings that chain terms together.
#[derive(Debug, PartialEq, Eq)]
pub struct Cons {
    pub value: Exp,
    pub next: Exp,
}

impl Cons {
    /// The pair of `value` and `next`.
    pub fn new(value: Exp, next: Exp) -> (r: Cons)
        ensures
            r.value@ == value@,
            r.next@ == next@,
    {
        Cons { value, next }
    }
}

} // verus!
