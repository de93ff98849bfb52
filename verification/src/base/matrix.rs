use vstd::prelude::*;

verus! {

/// The sum of the first `k` entries of `dims`.
pub open spec fn prefix_sum(dims: Seq<usize>, k: nat) -> nat
    decreases k,
{
    if k == 0 {
        0
    } else {
        prefix_sum(dims, (k - 1) as nat) + dims[k - 1] as nat
    }
}

/// Partial sums never decrease.
pub proof fn lemma_prefix_sum_monotone(dims: Seq<usize>, a: nat, b: nat)
    requires
        a <= b,
    ensures
        prefix_sum(dims, a) <= prefix_sum(dims, b),
    decreases b,
{
    if a < b {
        lemma_prefix_sum_monotone(dims, a, (b - 1) as nat);
    }
}

/// The block layout of a symmetric matrix whose rows and columns are grouped by variable:
/// for each block the column at which it starts, and after the last block the full width.
/// The dense storage itself is kept by the caller.
#[derive(Debug)]
pub struct SymmetricBlockMatrix {
    variable_col_offsets: Vec<usize>,
}

impl SymmetricBlockMatrix {
    /// The stored offsets: entry `b` is the first column of block `b`.
    pub closed spec fn offsets(&self) -> Seq<usize> {
        self.variable_col_offsets@
    }

    /// The offsets are those of some list of block widths: they start at 0 and never
    /// decrease. A layout without any offset is one that was not given its widths yet.
    pub open spec fn wf(&self) -> bool {
        &&& self.offsets().len() > 0 ==> self.offsets()[0] == 0
        &&& forall|a: int, b: int|
            0 <= a <= b < self.offsets().len() ==> self.offsets()[a] <= self.offsets()[b]
    }

    /// A layout that was not given its widths yet.
    pub fn new() -> (m: Self)
        ensures
            m.offsets() == Seq::<usize>::empty(),
            m.wf(),
    {
        SymmetricBlockMatrix { variable_col_offsets: Vec::new() }
    }

    /// The sum of all of `dims`, and one more where a last block of width one is asked for.
    pub open spec fn full_width(dims: Seq<usize>, append_one_dim: bool) -> nat {
        prefix_sum(dims, dims.len()) + if append_one_dim {
            1nat
        } else {
            0nat
        }
    }

    /// Replaces the offsets by the running sums of `dims`; with `append_one_dim`, one more
    /// block of width one follows the last.
    fn fill_offsets(&mut self, dims: &Vec<usize>, append_one_dim: bool)
        requires
            Self::full_width(dims@, append_one_dim) <= usize::MAX,
        ensures
            final(self).offsets().len() == dims@.len() + 1 + if append_one_dim {
                1nat
            } else {
                0nat
            },
            forall|k: int|
                0 <= k <= dims@.len() ==> final(self).offsets()[k] == prefix_sum(dims@, k as nat),
            append_one_dim ==> final(self).offsets()[dims@.len() as int + 1] == prefix_sum(
                dims@,
                dims@.len(),
            ) + 1,
    {
        self.variable_col_offsets.clear();
        let mut j: usize = 0;
        self.variable_col_offsets.push(0);
        while j < dims.len()
            invariant
                j <= dims@.len(),
                Self::full_width(dims@, append_one_dim) <= usize::MAX,
                self.variable_col_offsets@.len() == j + 1,
                forall|k: int|
                    0 <= k <= j ==> self.variable_col_offsets@[k] == prefix_sum(dims@, k as nat),
            decreases dims@.len() - j,
        {
            proof {
                lemma_prefix_sum_monotone(dims@, (j + 1) as nat, dims@.len());
            }
            let next: usize = self.variable_col_offsets[j] + dims[j];
            self.variable_col_offsets.push(next);
            j += 1;
        }
        if append_one_dim {
            let last: usize = self.variable_col_offsets[j] + 1;
            self.variable_col_offsets.push(last);
        }
    }

    /// The layout of blocks with the widths `dims`, in that order.
    pub fn from_dimensions(dims: &Vec<usize>) -> (m: Self)
        requires
            prefix_sum(dims@, dims@.len()) <= usize::MAX,
        ensures
            m.wf(),
            m.offsets().len() == dims@.len() + 1,
            forall|k: int| 0 <= k <= dims@.len() ==> m.offsets()[k] == prefix_sum(dims@, k as nat),
    {
        let mut mat = SymmetricBlockMatrix { variable_col_offsets: Vec::new() };
        mat.fill_offsets(dims, false);
        proof {
            assert forall|a: int, b: int| 0 <= a <= b < mat.offsets().len() implies mat.offsets()[a]
                <= mat.offsets()[b] by {
                lemma_prefix_sum_monotone(dims@, a as nat, b as nat);
            }
        }
        mat
    }

    /// The number of blocks.
    pub fn num_blocks(&self) -> (n: usize)
        requires
            self.offsets().len() > 0,
        ensures
            n == self.offsets().len() - 1,
    {
        self.variable_col_offsets.len() - 1
    }

    /// The first column of block `block`; with `block` the number of blocks, the full width.
    pub fn offset(&self, block: usize) -> (o: usize)
        requires
            block < self.offsets().len(),
        ensures
            o == self.offsets()[block as int],
    {
        self.variable_col_offsets[block]
    }

    /// Where the `rows` by `cols` blocks that start at block row `i` and block column `j`
    /// lie in the dense matrix: first row, first column, height and width. The region
    /// ends within the full width.
    pub fn calc_indices(&self, i: usize, j: usize, rows: usize, cols: usize) -> (r: (
        usize,
        usize,
        usize,
        usize,
    ))
        requires
            self.wf(),
            i + rows < self.offsets().len(),
            j + cols < self.offsets().len(),
        ensures
            r.0 == self.offsets()[i as int],
            r.1 == self.offsets()[j as int],
            r.2 == self.offsets()[i + rows] - self.offsets()[i as int],
            r.3 == self.offsets()[j + cols] - self.offsets()[j as int],
            r.0 + r.2 <= self.offsets().last(),
            r.1 + r.3 <= self.offsets().last(),
    {
        assert(self.offsets().len() == self.variable_col_offsets.len());
        let di = self.offset(i);
        let dj = self.offset(j);
        let dr = self.offset(i + rows) - di;
        let dc = self.offset(j + cols) - dj;
        (di, dj, dr, dc)
    }
}

} // verus!
