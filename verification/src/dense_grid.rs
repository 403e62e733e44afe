//! A dense grid: a flat row-major buffer of pixel values over a grid
//! space, with an optional no-data sentinel.

use vstd::prelude::*;

use crate::error::Error;
use crate::grid::{
    axis_sizes, contains_spec, GridShape1D, GridShape2D, GridShape3D, GridSpace, linear_spec,
    num_elements_spec, seq_product,
};
use crate::no_data_grid::NoDataGrid;

verus! {

/// A dense grid owning one value per cell of `shape`, in row-major
/// order, plus an optional sentinel marking "no data".
#[derive(Debug, Clone, PartialEq, Eq)]
pub struct Grid<D, T> {
    pub shape: D,
    pub data: Vec<T>,
    pub no_data_value: Option<T>,
}

pub type Grid1D<T> = Grid<GridShape1D, T>;

pub type Grid2D<T> = Grid<GridShape2D, T>;

pub type Grid3D<T> = Grid<GridShape3D, T>;

impl<D: GridSpace, T: Copy> Grid<D, T> {
    /// A dense grid is well-formed when it owns exactly one value per
    /// cell of its shape.
    pub open spec fn wf(self) -> bool {
        &&& self.shape.inv()
        &&& self.data@.len() == num_elements_spec(self.shape.min_spec(), self.shape.max_spec())
    }

    /// The value the grid holds at a contained multi-index.
    pub open spec fn value_at(self, idx: Seq<isize>) -> T {
        self.data@[linear_spec(self.shape.min_spec(), self.shape.max_spec(), idx)]
    }

    /// Creates a dense grid, rejecting data whose length does not match
    /// the shape's cell count.
    pub fn new(shape: D, data: Vec<T>, no_data_value: Option<T>) -> (r: Result<Self, Error>)
        requires
            shape.inv(),
        ensures
            r is Ok <==> data@.len() == num_elements_spec(shape.min_spec(), shape.max_spec()),
            r matches Ok(g) ==> g.shape == shape && g.data == data && g.no_data_value
                == no_data_value && g.wf(),
            r matches Err(e) ==> e == (Error::GridDataLengthMismatch {
                expected: num_elements_spec(shape.min_spec(), shape.max_spec()) as usize,
                found: data@.len() as usize,
            }),
    {
        let n = shape.number_of_elements();
        if data.len() == n {
            Ok(Grid { shape, data, no_data_value })
        } else {
            Err(Error::GridDataLengthMismatch { expected: n, found: data.len() })
        }
    }

    /// Creates a dense grid with every cell set to `value`.
    pub fn new_filled(shape: D, value: T, no_data_value: Option<T>) -> (r: Self)
        requires
            shape.inv(),
        ensures
            r.shape == shape,
            r.no_data_value == no_data_value,
            r.wf(),
            forall|i: int| 0 <= i < r.data@.len() ==> r.data@[i] == value,
    {
        let n = shape.number_of_elements();
        let mut data: Vec<T> = Vec::new();
        let mut i: usize = 0;
        while i < n
            invariant
                i <= n,
                data@.len() == i,
                forall|j: int| 0 <= j < i ==> data@[j] == value,
            decreases n - i,
        {
            data.push(value);
            i = i + 1;
        }
        Grid { shape, data, no_data_value }
    }

    /// Materializes a no-data grid: every cell holds the sentinel, and
    /// the dense grid's own sentinel is the same value.
    pub fn from_no_data_grid(no_grid: NoDataGrid<D, T>) -> (r: Self)
        requires
            no_grid.shape.inv(),
        ensures
            r.shape == no_grid.shape,
            r.no_data_value == Some(no_grid.no_data_value),
            r.wf(),
            forall|i: int| 0 <= i < r.data@.len() ==> r.data@[i] == no_grid.no_data_value,
    {
        Grid::new_filled(no_grid.shape, no_grid.no_data_value, Some(no_grid.no_data_value))
    }

    /// Reads the cell at `grid_index`, or reports the offending index
    /// with the valid range when it lies outside the bounds.
    pub fn get_at_grid_index(&self, grid_index: D::IndexArray) -> (r: Result<T, Error>)
        requires
            self.wf(),
        ensures
            r is Ok <==> contains_spec(
                self.shape.min_spec(),
                self.shape.max_spec(),
                grid_index@,
            ),
            r matches Ok(v) ==> v == self.value_at(grid_index@),
            r matches Err(e) ==> e matches Error::GridIndexOutOfBounds {
                index,
                min_index,
                max_index,
            } && index@.len() == grid_index@.len() && min_index@.len() == self.shape.min_spec().len()
                && max_index@.len() == self.shape.max_spec().len() && (forall|i: int|
                0 <= i < index@.len() ==> index@[i] == grid_index@[i] as i64) && (forall|i: int|
                0 <= i < min_index@.len() ==> min_index@[i] == self.shape.min_spec()[i]) && (
            forall|i: int| 0 <= i < max_index@.len() ==> max_index@[i] == self.shape.max_spec()[i]),
    {
        if self.shape.contains(&grid_index) {
            Ok(self.get_at_grid_index_unchecked(grid_index))
        } else {
            Err(
                Error::GridIndexOutOfBounds {
                    index: D::index_as_vec(&grid_index),
                    min_index: D::index_as_vec(&self.shape.min_index()),
                    max_index: D::index_as_vec(&self.shape.max_index()),
                },
            )
        }
    }

    /// The sentinel marking "no data", if the grid has one.
    pub fn no_data_value(&self) -> (r: Option<T>)
        ensures
            r == self.no_data_value,
    {
        self.no_data_value
    }

    /// Reads the cell at a multi-index the caller has already validated.
    pub fn get_at_grid_index_unchecked(&self, grid_index: D::IndexArray) -> (r: T)
        requires
            self.wf(),
            contains_spec(self.shape.min_spec(), self.shape.max_spec(), grid_index@),
        ensures
            r == self.value_at(grid_index@),
    {
        let li = self.shape.linear_index(&grid_index);
        self.data[li]
    }

    /// Overwrites the cell at a multi-index the caller has already
    /// validated.
    pub fn set_at_grid_index_unchecked(&mut self, grid_index: D::IndexArray, value: T)
        requires
            old(self).wf(),
            contains_spec(
                old(self).shape.min_spec(),
                old(self).shape.max_spec(),
                grid_index@,
            ),
        ensures
            final(self).shape == old(self).shape,
            final(self).no_data_value == old(self).no_data_value,
            final(self).wf(),
            final(self).data@ == old(self).data@.update(
                linear_spec(old(self).shape.min_spec(), old(self).shape.max_spec(), grid_index@),
                value,
            ),
    {
        let li = self.shape.linear_index(&grid_index);
        self.data.set(li, value);
    }

    /// Overwrites the cell at `grid_index`, or reports the offending
    /// index when it lies outside the bounds.
    pub fn set_at_grid_index(&mut self, grid_index: D::IndexArray, value: T) -> (r: Result<
        (),
        Error,
    >)
        requires
            old(self).wf(),
        ensures
            r is Ok <==> contains_spec(
                old(self).shape.min_spec(),
                old(self).shape.max_spec(),
                grid_index@,
            ),
            final(self).shape == old(self).shape,
            final(self).no_data_value == old(self).no_data_value,
            final(self).wf(),
            r is Ok ==> final(self).data@ == old(self).data@.update(
                linear_spec(old(self).shape.min_spec(), old(self).shape.max_spec(), grid_index@),
                value,
            ),
            r is Err ==> *final(self) == *old(self),
            r matches Err(e) ==> e matches Error::GridIndexOutOfBounds {
                index,
                min_index,
                max_index,
            } && index@.len() == grid_index@.len() && min_index@.len() == old(
                self,
            ).shape.min_spec().len() && max_index@.len() == old(self).shape.max_spec().len() && (
            forall|i: int|
                0 <= i < index@.len() ==> index@[i] == grid_index@[i] as i64) && (forall|i: int|
                0 <= i < min_index@.len() ==> min_index@[i] == old(self).shape.min_spec()[i]) && (
            forall|i: int|
                0 <= i < max_index@.len() ==> max_index@[i] == old(self).shape.max_spec()[i]),
    {
        if self.shape.contains(&grid_index) {
            self.set_at_grid_index_unchecked(grid_index, value);
            Ok(())
        } else {
            Err(
                Error::GridIndexOutOfBounds {
                    index: D::index_as_vec(&grid_index),
                    min_index: D::index_as_vec(&self.shape.min_index()),
                    max_index: D::index_as_vec(&self.shape.max_index()),
                },
            )
        }
    }
}

/// The product of a sequence of extents, split at the last axis.
pub proof fn lemma_seq_product_drop_last(s: Seq<int>)
    requires
        s.len() >= 1,
    ensures
        seq_product(s) == seq_product(s.drop_last()) * s.last(),
    decreases s.len(),
{
    reveal_with_fuel(seq_product, 2);
    if s.len() == 1 {
        assert(s.skip(1).len() == 0);
        assert(s.drop_last().len() == 0);
    } else {
        lemma_seq_product_drop_last(s.skip(1));
        assert(s.skip(1).last() == s.last());
        assert(s.skip(1).drop_last() =~= s.drop_last().skip(1));
        assert(s.drop_last()[0] == s[0]);
        let s0 = s[0];
        let p = seq_product(s.drop_last().skip(1));
        let l = s.last();
        assert(s0 * (p * l) == (s0 * p) * l) by (nonlinear_arith);
    }
}

/// A contained multi-index always maps to a row-major position inside
/// the grid's buffer, whatever the number of axes.
pub proof fn lemma_linear_in_bounds(min: Seq<int>, max: Seq<int>, idx: Seq<isize>)
    requires
        min.len() == max.len(),
        contains_spec(min, max, idx),
    ensures
        0 <= linear_spec(min, max, idx) < num_elements_spec(min, max),
    decreases min.len(),
{
    reveal_with_fuel(linear_spec, 2);
    reveal_with_fuel(seq_product, 2);
    if min.len() == 0 {
        assert(axis_sizes(min, max).len() == 0);
    } else {
        let mind = min.drop_last();
        let maxd = max.drop_last();
        let idxd = idx.drop_last();
        assert(contains_spec(mind, maxd, idxd)) by {
            assert(forall|i: int|
                0 <= i < mind.len() ==> mind[i] == min[i] && maxd[i] == max[i] && idxd[i]
                    == #[trigger] idx[i]);
        }
        lemma_linear_in_bounds(mind, maxd, idxd);
        lemma_seq_product_drop_last(axis_sizes(min, max));
        assert(axis_sizes(min, max).drop_last() =~= axis_sizes(mind, maxd));
        let ll = linear_spec(mind, maxd, idxd);
        let pp = num_elements_spec(mind, maxd);
        let sl = max.last() - min.last() + 1;
        let al = idx.last() - min.last();
        assert(axis_sizes(min, max).last() == sl);
        assert(linear_spec(min, max, idx) == ll * sl + al);
        assert(num_elements_spec(min, max) == pp * sl);
        assert(0 <= al < sl);
        assert(0 <= ll * sl + al < pp * sl) by (nonlinear_arith)
            requires
                0 <= ll <= pp - 1,
                0 <= al <= sl - 1,
                1 <= sl,
        ;
    }
}

/// The no-data virtual grid is observationally the same as a dense grid
/// filled with the sentinel: at every contained index both yield the
/// sentinel, and both fail outside the bounds.
pub proof fn lemma_no_data_grid_materializes_faithfully<D: GridSpace, T: Copy>(
    dense: Grid<D, T>,
    virt: NoDataGrid<D, T>,
    idx: Seq<isize>,
)
    requires
        dense.wf(),
        dense.shape == virt.shape,
        forall|i: int| 0 <= i < dense.data@.len() ==> dense.data@[i] == virt.no_data_value,
        contains_spec(dense.shape.min_spec(), dense.shape.max_spec(), idx),
    ensures
        dense.value_at(idx) == virt.no_data_value,
{
    dense.shape.lemma_inv();
    lemma_linear_in_bounds(dense.shape.min_spec(), dense.shape.max_spec(), idx);
}

} // verus!
