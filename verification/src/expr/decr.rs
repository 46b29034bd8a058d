//! The decrement builder.

use vstd::prelude::*;

use crate::{Exp, ExpV};

verus! {

/// Builder for the saturating predecessor form.
pub struct Decr(Exp);

impl Decr {
    /// The form `decr exp` as an `Exp`.
    pub fn build(exp: Exp) -> (r: Exp)
        ensures
            r@ == ExpV::Decr(Box::new(exp@)),
    {
        Exp::Decr(Box::new(exp))
    }
}

} // verus!
