//! Numeric operation parameters.
//!
//! In the source model every angle or amplitude component is a symbolic
//! float: either a concrete real number or an unresolved symbolic
//! expression.  The translator only ever reads two things of such a value:
//! whether it resolves to a number, and, if so, the decimal text of that
//! number.  This module holds exactly that.

use vstd::prelude::*;

verus! {

/// A numeric parameter of an operation: either resolved to a concrete
/// number, carried as the decimal text that the target dialect prints
/// verbatim, or an unresolved symbolic expression.
#[derive(Debug, Clone, PartialEq, Eq)]
pub enum FloatValue {
    /// A concrete number; the field holds its decimal text.
    Resolved(String),
    /// An unresolved symbolic expression; the field holds the expression
    /// text.  Lowering an operation that carries one fails.
    Symbolic(String),
}

impl FloatValue {
    /// Whether the value resolved to a concrete number.
    pub open spec fn is_resolved(self) -> bool {
        matches!(self, FloatValue::Resolved(_))
    }

    /// The decimal text of a resolved value.
    pub open spec fn text(self) -> Seq<char>
        recommends
            self.is_resolved(),
    {
        match self {
            FloatValue::Resolved(s) => s@,
            FloatValue::Symbolic(s) => s@,
        }
    }
}

} // verus!
