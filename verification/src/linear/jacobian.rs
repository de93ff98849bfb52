use vstd::prelude::*;

verus! {

/// A Gaussian factor kept as a Jacobian and a right-hand side.
#[derive(Debug)]
pub struct JacobianFactor {}

} // verus!
