use crate::inference::FactorGraph;
use std::sync::Arc;
use vstd::prelude::*;

verus! {

/// A cluster: the frontal variables it eliminates, the factors that belong to it,
/// and the clusters below it.
#[derive(Debug)]
pub struct Cluster<Graph: FactorGraph> {
    pub frontals: Vec<u64>,
    pub children: Vec<Box<Self>>,
    pub factors: Graph,
}

/// A forest of clusters over one factor graph; each factor belongs to exactly one cluster.
#[derive(Debug)]
pub struct ClusterTree<Graph: FactorGraph> {
    pub roots: Vec<Box<Cluster<Graph>>>,
}

/// `Arc::clone` of std: the new pointer shares the allocation of `a`, so the value it
/// points to is the one `a` points to.
#[verifier::external_body]
fn share<T: ?Sized>(a: &Arc<T>) -> (res: Arc<T>)
    ensures
        res == *a,
{
    a.clone()
}

/// `slice::reverse` of std, called on a vector: afterwards it holds the same items in the
/// opposite order.
#[verifier::external_body]
fn reverse_keys(keys: &mut Vec<u64>)
    ensures
        final(keys)@ == old(keys)@.reverse(),
{
    keys.reverse()
}

impl<Graph> Cluster<Graph> where Graph: FactorGraph {
    /// The frontal keys of a cluster that started with `frontals` and has absorbed, in
    /// order, those of the first `n` of `children` that `merge` selects.
    pub open spec fn absorbed_frontals(
        frontals: Seq<u64>,
        children: Seq<Box<Self>>,
        merge: Seq<bool>,
        n: nat,
    ) -> Seq<u64>
        decreases n,
    {
        if n == 0 {
            frontals
        } else {
            let before = Self::absorbed_frontals(frontals, children, merge, (n - 1) as nat);
            if merge[n - 1] {
                before + children[n - 1].frontals@
            } else {
                before
            }
        }
    }

    /// The factors of a cluster that started with `factors` and has absorbed, in order,
    /// those of the first `n` of `children` that `merge` selects.
    pub open spec fn absorbed_factors(
        factors: Seq<Arc<Graph::FactorType>>,
        children: Seq<Box<Self>>,
        merge: Seq<bool>,
        n: nat,
    ) -> Seq<Arc<Graph::FactorType>>
        decreases n,
    {
        if n == 0 {
            factors
        } else {
            let before = Self::absorbed_factors(factors, children, merge, (n - 1) as nat);
            if merge[n - 1] {
                before + children[n - 1].factors.factor_seq()
            } else {
                before
            }
        }
    }

    /// The children left after the first `n` of `children` were handled: one that `merge`
    /// selects gives way to its own children, any other stays.
    pub open spec fn regrouped_children(children: Seq<Box<Self>>, merge: Seq<bool>, n: nat) -> Seq<
        Box<Self>,
    >
        decreases n,
    {
        if n == 0 {
            Seq::empty()
        } else {
            let before = Self::regrouped_children(children, merge, (n - 1) as nat);
            if merge[n - 1] {
                before + children[n - 1].children@
            } else {
                before.push(children[n - 1])
            }
        }
    }

    /// A cluster with no frontal variable, no factor and no child.
    pub fn new() -> (c: Self)
        ensures
            c.frontals@ == Seq::<u64>::empty(),
            c.children@ == Seq::<Box<Self>>::empty(),
            c.factors.factor_seq() == Seq::<Arc<Graph::FactorType>>::empty(),
    {
        Cluster { frontals: Vec::new(), children: Vec::new(), factors: Graph::new() }
    }

    /// The leaf cluster of the variable `key`, sharing the given factors.
    pub fn from_single_key(key: u64, factors: &Vec<Arc<Graph::FactorType>>) -> (c: Self)
        ensures
            c.frontals@ == seq![key],
            c.children@ == Seq::<Box<Self>>::empty(),
            c.factors.factor_seq() == factors@,
    {
        let mut fg = Graph::new();
        let mut i: usize = 0;
        while i < factors.len()
            invariant
                i <= factors.len(),
                fg.factor_seq() == factors@.take(i as int),
            decreases factors.len() - i,
        {
            fg.insert_shared(share(&factors[i]));
            i += 1;
        }
        let mut frontals: Vec<u64> = Vec::new();
        frontals.push(key);
        Cluster { frontals, children: Vec::new(), factors: fg }
    }

    /// Moves everything `other` holds to the end of what `self` holds, and leaves `other`
    /// empty.
    pub fn merge(&mut self, other: &mut Self)
        ensures
            final(self).frontals@ == old(self).frontals@ + old(other).frontals@,
            final(self).factors.factor_seq() == old(self).factors.factor_seq() + old(
                other,
            ).factors.factor_seq(),
            final(self).children@ == old(self).children@ + old(other).children@,
            final(other).frontals@ == Seq::<u64>::empty(),
            final(other).factors.factor_seq() == Seq::<Arc<Graph::FactorType>>::empty(),
            final(other).children@ == Seq::<Box<Self>>::empty(),
    {
        self.frontals.append(&mut other.frontals);
        self.factors.merge(&mut other.factors);
        self.children.append(&mut other.children);
    }

    /// Puts `child` below this cluster, after the children already there. The frontal
    /// keys are untouched, so they no longer cover the subtree until the children are merged.
    pub fn add_child(&mut self, child: Box<Self>)
        ensures
            final(self).children@ == old(self).children@.push(child),
            final(self).frontals@ == old(self).frontals@,
            final(self).factors == old(self).factors,
    {
        self.children.push(child);
    }

    /// Goes through the children in order: one that `merge` selects is absorbed (its keys,
    /// factors and children move up), any other stays a child. At the end the frontal keys
    /// are put in reverse order.
    pub fn merge_children(&mut self, merge: Vec<bool>)
        requires
            merge@.len() >= old(self).children@.len(),
        ensures
            final(self).frontals@ == Self::absorbed_frontals(
                old(self).frontals@,
                old(self).children@,
                merge@,
                old(self).children@.len(),
            ).reverse(),
            final(self).factors.factor_seq() == Self::absorbed_factors(
                old(self).factors.factor_seq(),
                old(self).children@,
                merge@,
                old(self).children@.len(),
            ),
            final(self).children@ == Self::regrouped_children(
                old(self).children@,
                merge@,
                old(self).children@.len(),
            ),
    {
        let mut old_children: Vec<Box<Self>> = Vec::new();
        std::mem::swap(&mut self.children, &mut old_children);
        let ghost start = *old(self);
        let ghost all = old_children@;
        let total: usize = old_children.len();
        let mut j: usize = 0;
        for child in it: old_children
            invariant
                all == start.children@,
                it.seq() == all,
                all.len() == total,
                j == it.index(),
                merge@.len() >= all.len(),
                self.frontals@ == Self::absorbed_frontals(start.frontals@, all, merge@, j as nat),
                self.factors.factor_seq() == Self::absorbed_factors(
                    start.factors.factor_seq(),
                    all,
                    merge@,
                    j as nat,
                ),
                self.children@ == Self::regrouped_children(all, merge@, j as nat),
        {
            let mut child = child;
            if merge[j] {
                self.merge(&mut *child);
            } else {
                self.add_child(child);
            }
            j += 1;
        }
        reverse_keys(&mut self.frontals);
    }
}

impl<Graph> ClusterTree<Graph> where Graph: FactorGraph {
    /// A tree with no cluster.
    pub fn new() -> (t: Self)
        ensures
            t.roots@ == Seq::<Box<Cluster<Graph>>>::empty(),
    {
        ClusterTree { roots: Vec::new() }
    }
}

} // verus!
