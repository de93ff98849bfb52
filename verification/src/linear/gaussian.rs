use vstd::prelude::*;

verus! {

/// A factor with a Gaussian density.
pub struct GaussianFactor {}

} // verus!
