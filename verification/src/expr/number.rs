//! The number builder.

use vstd::prelude::*;

use crate::{Exp, ExpV};

verus! {

/// Builder for numeric constants.
pub struct Nat(u32);

impl Nat {
    /// The number `n` as an `Exp`.
    pub fn build(n: u32) -> (r: Exp)
        ensures
            r@ == ExpV::Nat(n as nat),
    {
        Exp::Nat(n)
    }
}

} // verus!
