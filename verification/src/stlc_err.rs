//! Errors raised by the small-step evaluator.

use vstd::prelude::*;

verus! {

/// The evaluator's error kinds. The payload of each variant is the
/// offending expression rendered as human-readable syntax.
#[derive(Debug, Clone, PartialEq, Eq)]
pub enum StlcError {
    /// Under call-by-value, an application `t1 t2` had `t1` a value that is
    /// not a lambda abstraction.
    StuckExpressionCbv(String),
    /// The analogous situation under call-by-name.
    StuckExpressionCbn(String),
    /// A form that admits no operational rule, such as a conditional whose
    /// test evaluated to a non-boolean value.
    InvalidExpression(String),
    /// The normalization step cap was reached.
    ExceedEvalLimit(String),
}

/// The mathematical abstraction of an evaluator error.
#[verifier::ext_equal]
pub enum StlcErrorV {
    StuckExpressionCbv(Seq<char>),
    StuckExpressionCbn(Seq<char>),
    InvalidExpression(Seq<char>),
    ExceedEvalLimit(Seq<char>),
}

impl View for StlcError {
    type V = StlcErrorV;

    open spec fn view(&self) -> StlcErrorV {
        match self {
            StlcError::StuckExpressionCbv(s) => StlcErrorV::StuckExpressionCbv(s@),
            StlcError::StuckExpressionCbn(s) => StlcErrorV::StuckExpressionCbn(s@),
            StlcError::InvalidExpression(s) => StlcErrorV::InvalidExpression(s@),
            StlcError::ExceedEvalLimit(s) => StlcErrorV::ExceedEvalLimit(s@),
        }
    }
}

} // verus!
