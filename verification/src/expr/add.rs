//! The addition node.

use vstd::prelude::*;

use crate::{Exp, ExpV};

verus! {

/// The payload of a binary integer addition `t1 + t2`.
#[derive(Debug, PartialEq, Eq)]
pub struct Add {
    pub t1: Exp,
    pub t2: Exp,
}

impl Clone for Add {
    fn clone(&self) -> (r: Add)
        ensures
            r.t1@ == self.t1@,
            r.t2@ == self.t2@,
    {
        Add { t1: self.t1.clone(), t2: self.t2.clone() }
    }
}

impl Add {
    /// The addition node as a bare pair.
    pub fn new(t1: Exp, t2: Exp) -> (r: Add)
        ensures
            r.t1@ == t1@,
            r.t2@ == t2@,
    {
        Add { t1, t2 }
    }

    /// The addition `t1 + t2` as an `Exp`.
    pub fn build(t1: Exp, t2: Exp) -> (r: Exp)
        ensures
            r@ == ExpV::Add(Box::new(t1@), Box::new(t2@)),
    {
        Exp::Add(Box::new(Add { t1, t2 }))
    }
}

} // verus!
