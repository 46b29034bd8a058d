//! The variable builder.

use vstd::prelude::*;

use crate::{Exp, ExpV};

verus! {

/// Builder for variable references.
pub struct Var(String);

impl Var {
    /// The variable `var` as an `Exp`.
    pub fn build(var: &str) -> (r: Exp)
        ensures
            r@ == ExpV::Var(var@),
    {
        Exp::Var(var.to_owned())
    }
}

} // verus!
