use vstd::prelude::*;

verus! {

/// A conditional density on some frontal variables given some parent variables.
pub trait Conditional<FactorType> {
    /// The keys of the frontal variables, in order.
    spec fn frontal_keys(&self) -> Seq<u64>;

    /// The keys of the parent variables, in order.
    spec fn parent_keys(&self) -> Seq<u64>;

    fn num_frontals(&self) -> (n: usize)
        ensures
            n == self.frontal_keys().len(),
    ;

    fn num_parents(&self) -> (n: usize)
        ensures
            n == self.parent_keys().len(),
    ;

    fn frontals(&self) -> (keys: Vec<u64>)
        ensures
            keys@ == self.frontal_keys(),
    ;

    fn parents(&self) -> (keys: Vec<u64>)
        ensures
            keys@ == self.parent_keys(),
    ;
}

} // verus!
