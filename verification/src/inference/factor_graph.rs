use crate::inference::factor::Factor;
use std::sync::Arc;
use vstd::prelude::*;

verus! {

/// A cursor over the factors of a graph, in insertion order.
pub struct FactorIterator<'a, FactorGraphType> {
    owner: &'a FactorGraphType,
    index: usize,
}

impl<'a, FactorGraphType> FactorIterator<'a, FactorGraphType> {
    /// The graph the cursor walks over.
    pub closed spec fn graph(&self) -> &'a FactorGraphType {
        self.owner
    }

    /// How many factors the cursor has passed.
    pub closed spec fn position(&self) -> nat {
        self.index as nat
    }
}

/// A collection of shared factors that keeps the order in which they came.
pub trait FactorGraph: Sized {
    /// The kind of factor the graph holds.
    type FactorType: ?Sized;

    /// The factors held, oldest first.
    spec fn factor_seq(&self) -> Seq<Arc<Self::FactorType>>;

    /// A graph without factors.
    fn new() -> (g: Self)
        ensures
            g.factor_seq() == Seq::<Arc<Self::FactorType>>::empty(),
    ;

    /// Adds `f` after the factors already held.
    fn insert(&mut self, f: Self::FactorType) where Self::FactorType: Sized
        ensures
            final(self).factor_seq().len() == old(self).factor_seq().len() + 1,
            final(self).factor_seq().drop_last() == old(self).factor_seq(),
            *final(self).factor_seq().last() == f,
    ;

    /// Moves the factors of `other` behind those of `self`, and leaves `other` empty.
    fn merge(&mut self, other: &mut Self)
        ensures
            final(self).factor_seq() == old(self).factor_seq() + old(other).factor_seq(),
            final(other).factor_seq() == Seq::<Arc<Self::FactorType>>::empty(),
    ;

    /// Adds the shared factor `f` after the factors already held.
    fn insert_shared(&mut self, f: Arc<Self::FactorType>)
        ensures
            final(self).factor_seq() == old(self).factor_seq().push(f),
    ;

    /// A cursor at the first factor.
    fn iter(&self) -> (it: FactorIterator<'_, Self>) where Self::FactorType: Sized
        ensures
            *it.graph() == *self,
            it.position() == 0,
    ;

    /// The number of factors held.
    fn size(&self) -> (n: usize)
        ensures
            n == self.factor_seq().len(),
    ;
}

/// A factor graph that is a plain list of shared factors.
#[derive(Debug)]
pub struct SimpleFactorGraph<FactorType: ?Sized> where FactorType: Factor {
    pub factors: Vec<Arc<FactorType>>,
}

impl<FACTOR: ?Sized> FactorGraph for SimpleFactorGraph<FACTOR> where FACTOR: Factor {
    type FactorType = FACTOR;

    open spec fn factor_seq(&self) -> Seq<Arc<FACTOR>> {
        self.factors@
    }

    fn new() -> (g: Self) {
        Self { factors: Vec::new() }
    }

    fn insert(&mut self, f: Self::FactorType) where Self::FactorType: Sized {
        self.factors.push(Arc::new(f));
    }

    fn merge(&mut self, other: &mut Self) {
        self.factors.append(&mut other.factors);
    }

    fn insert_shared(&mut self, f: Arc<Self::FactorType>) {
        self.factors.push(f);
    }

    fn iter(&self) -> (it: FactorIterator<'_, Self>) where Self::FactorType: Sized {
        FactorIterator { owner: self, index: 0 }
    }

    fn size(&self) -> (n: usize) {
        self.factors.len()
    }
}

impl<'a, FACTOR> FactorIterator<'a, SimpleFactorGraph<FACTOR>> where FACTOR: Factor {
    /// The factor under the cursor, which then moves on; `None` at the end.
    pub fn next(&mut self) -> (r: Option<&'a FACTOR>)
        ensures
            final(self).graph() == old(self).graph(),
            old(self).position() < old(self).graph().factors@.len() ==> r == Some(
                &*old(self).graph().factors@[old(self).position() as int],
            ) && final(self).position() == old(self).position() + 1,
            old(self).position() >= old(self).graph().factors@.len() ==> r is None && *final(self)
                == *old(self),
    {
        if self.index < self.owner.factors.len() {
            let a = &self.owner.factors[self.index];
            self.index += 1;
            Some(&**a)
        } else {
            None
        }
    }
}

/// A factor graph whose variables can be eliminated.
pub trait EliminateableFactorGraph<FactorType>: FactorGraph where FactorType: Factor {
}

} // verus!
