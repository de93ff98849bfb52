use crate::base::group::LieGroup;
use vstd::prelude::*;

verus! {

/// A space that looks flat around each of its points.
pub trait Manifold: Sized {
    /// The vectors of the flat space around a point.
    type TangentVector;

    /// The tangent vector at `origin` that leads to `other`.
    fn local(origin: &Self, other: &Self) -> Self::TangentVector;

    /// The point reached from `origin` along `v`.
    fn retract(origin: &Self, v: &Self::TangentVector) -> Self;
}

/// Every Lie group is a manifold: local coordinates are the logarithm of the step between
/// two elements, and a retraction composes with the exponential of the step.
impl<G: LieGroup> Manifold for G {
    type TangentVector = G::Tangent;

    fn local(origin: &Self, other: &Self) -> (v: G::Tangent)
        ensures
            exists|step: G|
                call_ensures(G::between, (origin, other), step) && call_ensures(
                    G::logmap,
                    (&step,),
                    v,
                ),
    {
        let step = origin.between(other);
        let v = G::logmap(&step);
        assert(call_ensures(G::between, (origin, other), step) && call_ensures(
            G::logmap,
            (&step,),
            v,
        ));
        v
    }

    fn retract(origin: &Self, v: &G::Tangent) -> (p: Self)
        ensures
            exists|step: G|
                call_ensures(G::expmap, (v,), step) && call_ensures(
                    G::compose,
                    (origin, &step),
                    p,
                ),
    {
        let step = G::expmap(v);
        let p = origin.compose(&step);
        assert(call_ensures(G::expmap, (v,), step) && call_ensures(
            G::compose,
            (origin, &step),
            p,
        ));
        p
    }
}

} // verus!
