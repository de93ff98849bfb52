use vstd::prelude::*;

verus! {

/// A factor given by an expression over variables.
#[derive(Debug, Clone)]
pub struct ExpressionFactor {}

} // verus!
