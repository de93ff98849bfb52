use vstd::prelude::*;

verus! {

/// Why a group operation gave no result.
#[derive(Debug, Clone, Copy, PartialEq, Eq, Structural)]
pub enum GroupError {
    /// A derivative was asked for where no closed form is known.
    DerivativeUnavailable,
    /// The raw coordinates do not describe an element of the group.
    InvalidGroupElement,
}

/// A Lie group: a group whose elements can be reached from a flat tangent space by the
/// exponential map, and brought back to it by the logarithm map.
pub trait LieGroup: std::fmt::Debug + Sized + Copy {
    /// A vector of the tangent space at the identity.
    type Tangent;

    /// A linear map of the tangent space to itself.
    type Adjoint;

    /// The dimension of the tangent space.
    fn dim() -> usize;

    /// The product `self * g`.
    fn compose(&self, g: &Self) -> Self;

    /// The element that leads from `self` to `g`: the inverse of `self`, times `g`.
    fn between(&self, g: &Self) -> Self;

    /// How the element acts on tangent vectors by conjugation.
    fn adjoint_map(&self) -> Self::Adjoint;

    /// The tangent vector whose exponential is `r`.
    fn logmap(r: &Self) -> Self::Tangent;

    /// The logarithm of `r` together with its derivative.
    fn logmap_with_derivative(r: &Self) -> Result<(Self::Tangent, Self::Adjoint), GroupError>;

    /// The element reached from the identity along `omega`.
    fn expmap(omega: &Self::Tangent) -> Self;

    /// The exponential of `omega` together with its derivative.
    fn expmap_with_derivative(omega: &Self::Tangent) -> Result<(Self, Self::Adjoint), GroupError>;
}

} // verus!
