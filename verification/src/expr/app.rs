//! The application node.

use vstd::prelude::*;

use crate::{Exp, ExpV};

verus! {

/// The payload of an application `t1 t2`: `t1` is the function position,
/// `t2` the argument position.
#[derive(Debug, PartialEq, Eq)]
pub struct App {
    pub t1: Exp,
    pub t2: Exp,
}

impl Clone for App {
    fn clone(&self) -> (r: App)
        ensures
            r.t1@ == self.t1@,
            r.t2@ == self.t2@,
    {
        App { t1: self.t1.clone(), t2: self.t2.clone() }
    }
}

impl App {
    /// The application node as a bare pair.
    pub fn new(t1: Exp, t2: Exp) -> (r: App)
        ensures
            r.t1@ == t1@,
            r.t2@ == t2@,
    {
        App { t1, t2 }
    }

    /// The application node, boxed.
    pub fn new_with_box(t1: Exp, t2: Exp) -> (r: Box<App>)
        ensures
            r.t1@ == t1@,
            r.t2@ == t2@,
    {
        Box::new(App { t1, t2 })
    }

    /// The application `t1 t2` as an `Exp`.
    pub fn build(t1: Exp, t2: Exp) -> (r: Exp)
        ensures
            r@ == ExpV::App(Box::new(t1@), Box::new(t2@)),
    {
        Exp::App(Box::new(App { t1, t2 }))
    }
}

} // verus!
