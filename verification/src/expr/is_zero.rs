//! The test-for-zero builder.

use vstd::prelude::*;

use crate::{Exp, ExpV};

verus! {

/// Builder for the test-for-zero form.
pub struct IsZero(Exp);

impl IsZero {
    /// The form `is_zero exp` as an `Exp`.
    pub fn build(exp: Exp) -> (r: Exp)
        ensures
            r@ == ExpV::IsZero(Box::new(exp@)),
    {
        Exp::IsZero(Box::new(exp))
    }
}

} // verus!
