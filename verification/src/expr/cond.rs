//! The conditional node.

use vstd::prelude::*;

use crate::{Exp, ExpV};

verus! {

/// The payload of a conditional `if guard then thn else els`.
#[derive(Debug, PartialEq, Eq)]
pub struct Cond {
    pub guard: Exp,
    pub thn: Exp,
    pub els: Exp,
}

impl Clone for Cond {
    fn clone(&self) -> (r: Cond)
        ensures
            r.guard@ == self.guard@,
            r.thn@ == self.thn@,
            r.els@ == self.els@,
    {
        Cond { guard: self.guard.clone(), thn: self.thn.clone(), els: self.els.clone() }
    }
}

impl Cond {
    /// The conditional node as a bare triple.
    pub fn new(guard: Exp, thn: Exp, els: Exp) -> (r: Cond)
        ensures
            r.guard@ == guard@,
            r.thn@ == thn@,
            r.els@ == els@,
    {
        Cond { guard, thn, els }
    }

    /// The conditional node, boxed.
    pub fn new_with_box(guard: Exp, thn: Exp, els: Exp) -> (r: Box<Cond>)
        ensures
            r.guard@ == guard@,
            r.thn@ == thn@,
            r.els@ == els@,
    {
        Box::new(Cond { guard, thn, els })
    }

    /// The conditional `if guard then thn else els` as an `Exp`.
    pub fn build(guard: Exp, thn: Exp, els: Exp) -> (r: Exp)
        ensures
            r@ == ExpV::Cond(Box::new(guard@), Box::new(thn@), Box::new(els@)),
    {
        Exp::Cond(Box::new(Cond { guard, thn, els }))
    }
}

} // verus!
