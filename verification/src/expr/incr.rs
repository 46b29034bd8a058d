//! The increment builder.

use vstd::prelude::*;

use crate::{Exp, ExpV};

verus! {

/// Builder for the successor form.
pub struct Incr(Exp);

impl Incr {
    /// The form `incr exp` as an `Exp`.
    pub fn build(exp: Exp) -> (r: Exp)
        ensures
            r@ == ExpV::Incr(Box::new(exp@)),
    {
        Exp::Incr(Box::new(exp))
    }
}

} // verus!
