//! A zero-storage virtual grid: every contained index yields the same
//! no-data sentinel, and out-of-bounds access fails exactly as it would
//! on a materialized grid.

use vstd::prelude::*;

use crate::error::Error;
use crate::grid::{
    contains_spec, GridBoundingBox, GridBoundingBox1D, GridBoundingBox2D, GridBoundingBox3D,
    GridShape1D, GridShape2D, GridShape3D, GridSpace, num_elements_spec,
};
use crate::pixel::{IntPixel, WidenFrom};

verus! {

/// A virtual grid over `shape` whose every cell reads as
/// `no_data_value`, with no backing storage.
#[derive(Debug, Clone, Copy, PartialEq, Eq, Structural)]
pub struct NoDataGrid<D, T> {
    pub shape: D,
    pub no_data_value: T,
}

pub type NoDataGrid1D<T> = NoDataGrid<GridShape1D, T>;

pub type NoDataGrid2D<T> = NoDataGrid<GridShape2D, T>;

pub type NoDataGrid3D<T> = NoDataGrid<GridShape3D, T>;

impl<D: GridSpace, T: Copy> NoDataGrid<D, T> {
    /// Creates a new `NoDataGrid`.
    pub fn new(shape: D, no_data_value: T) -> (r: Self)
        ensures
            r == (NoDataGrid { shape, no_data_value }),
    {
        NoDataGrid { shape, no_data_value }
    }

    /// Converts the grid's pixel type by widening the sentinel; the value
    /// of the sentinel is preserved exactly.
    pub fn convert_dtype<To: WidenFrom<T>>(self) -> (r: NoDataGrid<D, To>) where T: IntPixel
        ensures
            r.shape == self.shape,
            r.no_data_value == To::spec_widen(self.no_data_value),
            r.no_data_value.as_int() == self.no_data_value.as_int(),
    {
        proof {
            To::lemma_widen_preserves(self.no_data_value);
        }
        NoDataGrid { shape: self.shape, no_data_value: To::widen(self.no_data_value) }
    }

    /// Yields the sentinel for every contained index, and the offending
    /// index with the valid range for every index outside the bounds.
    pub fn get_at_grid_index(&self, grid_index: D::IndexArray) -> (r: Result<T, Error>)
        requires
            self.shape.inv(),
        ensures
            r is Ok <==> contains_spec(
                self.shape.min_spec(),
                self.shape.max_spec(),
                grid_index@,
            ),
            r matches Ok(v) ==> v == self.no_data_value,
            r matches Err(e) ==> e matches Error::GridIndexOutOfBounds {
                index,
                min_index,
                max_index,
            } && index@.len() == grid_index@.len() && min_index@.len() == self.shape.min_spec().len()
                && max_index@.len() == self.shape.max_spec().len() && (forall|i: int|
                0 <= i < index@.len() ==> index@[i] == grid_index@[i] as i64) && (forall|i: int|
                0 <= i < min_index@.len() ==> min_index@[i] == self.shape.min_spec()[i]) && (
            forall|i: int| 0 <= i < max_index@.len() ==> max_index@[i] == self.shape.max_spec()[i]),
    {
        if self.shape.contains(&grid_index) {
            Ok(self.get_at_grid_index_unchecked(grid_index))
        } else {
            Err(
                Error::GridIndexOutOfBounds {
                    index: D::index_as_vec(&grid_index),
                    min_index: D::index_as_vec(&self.shape.min_index()),
                    max_index: D::index_as_vec(&self.shape.max_index()),
                },
            )
        }
    }

    /// Yields the sentinel whatever the index; a no-data grid has nothing
    /// else to read.
    pub fn get_at_grid_index_unchecked(&self, _grid_index: D::IndexArray) -> (r: T)
        ensures
            r == self.no_data_value,
    {
        self.no_data_value
    }

    /// The per-axis extents of the underlying shape.
    pub fn axis_size(&self) -> (r: D::ShapeArray)
        requires
            self.shape.inv(),
        ensures
            r@.len() == self.shape.min_spec().len(),
            forall|i: int|
                0 <= i < r@.len() ==> r@[i] == self.shape.max_spec()[i] - self.shape.min_spec()[i]
                    + 1,
    {
        self.shape.axis_size()
    }

    /// The per-axis extents, as for any grid-shaped value.
    pub fn grid_shape_array(&self) -> (r: D::ShapeArray)
        requires
            self.shape.inv(),
        ensures
            r@.len() == self.shape.min_spec().len(),
            forall|i: int|
                0 <= i < r@.len() ==> r@[i] == self.shape.max_spec()[i] - self.shape.min_spec()[i]
                    + 1,
    {
        self.shape.axis_size()
    }

    /// How many cells the virtual grid covers.
    pub fn number_of_elements(&self) -> (n: usize)
        requires
            self.shape.inv(),
        ensures
            n == num_elements_spec(self.shape.min_spec(), self.shape.max_spec()),
    {
        self.shape.number_of_elements()
    }

    /// The smallest contained multi-index.
    pub fn min_index(&self) -> (r: D::IndexArray)
        requires
            self.shape.inv(),
        ensures
            r@.len() == self.shape.min_spec().len(),
            forall|i: int| 0 <= i < r@.len() ==> r@[i] == self.shape.min_spec()[i],
    {
        self.shape.min_index()
    }

    /// The largest contained multi-index.
    pub fn max_index(&self) -> (r: D::IndexArray)
        requires
            self.shape.inv(),
        ensures
            r@.len() == self.shape.max_spec().len(),
            forall|i: int| 0 <= i < r@.len() ==> r@[i] == self.shape.max_spec()[i],
    {
        self.shape.max_index()
    }

    /// The sentinel, which a no-data grid always has.
    pub fn no_data_value(&self) -> (r: Option<T>)
        ensures
            r == Some(self.no_data_value),
    {
        Some(self.no_data_value)
    }

    /// Re-bases the virtual grid onto validated bounds; the sentinel is
    /// unchanged. Degenerate bounds fail `GridBoundingBox::new` and do
    /// not satisfy the bounds invariant required here, so re-basing
    /// always succeeds.
    pub fn set_grid_bounds(self, bounds: GridBoundingBox<D::IndexArray>) -> (r: Result<
        NoDataGrid<GridBoundingBox<D::IndexArray>, T>,
        Error,
    >) where GridBoundingBox<D::IndexArray>: GridSpace
        requires
            bounds.inv(),
        ensures
            r == Ok::<_, Error>(
                NoDataGrid { shape: bounds, no_data_value: self.no_data_value },
            ),
            r matches Ok(g) ==> g.shape.inv(),
    {
        Ok(NoDataGrid { shape: bounds, no_data_value: self.no_data_value })
    }
}

impl<T: Copy> NoDataGrid<GridShape1D, T> {
    /// The number of axes of a one-dimensional grid.
    pub const NDIM: usize = 1;

    /// Translates the bounding box by an index offset; contents and
    /// sentinel are unchanged, only the coordinate frame moves.
    pub fn shift_by_offset(self, offset: [isize; 1]) -> (r: NoDataGrid<GridBoundingBox1D, T>)
        requires
            self.shape.inv(),
            isize::MIN <= self.shape.shape_array@[0] - 1 + offset@[0],
            self.shape.shape_array@[0] - 1 + offset@[0] <= isize::MAX,
        ensures
            r.no_data_value == self.no_data_value,
            r.shape.min_index@[0] == offset@[0],
            r.shape.max_index@[0] == self.shape.shape_array@[0] - 1 + offset@[0],
            r.shape.inv(),
    {
        NoDataGrid {
            shape: GridBoundingBox {
                min_index: [offset[0]],
                max_index: [self.shape.shape_array[0] as isize - 1 + offset[0]],
            },
            no_data_value: self.no_data_value,
        }
    }
}

impl<T: Copy> NoDataGrid<GridShape2D, T> {
    /// The number of axes of a two-dimensional grid.
    pub const NDIM: usize = 2;

    /// Translates the bounding box by an index offset; contents and
    /// sentinel are unchanged, only the coordinate frame moves.
    pub fn shift_by_offset(self, offset: [isize; 2]) -> (r: NoDataGrid<GridBoundingBox2D, T>)
        requires
            self.shape.inv(),
            isize::MIN <= self.shape.shape_array@[0] - 1 + offset@[0],
            self.shape.shape_array@[0] - 1 + offset@[0] <= isize::MAX,
            isize::MIN <= self.shape.shape_array@[1] - 1 + offset@[1],
            self.shape.shape_array@[1] - 1 + offset@[1] <= isize::MAX,
        ensures
            r.no_data_value == self.no_data_value,
            r.shape.min_index@[0] == offset@[0],
            r.shape.min_index@[1] == offset@[1],
            r.shape.max_index@[0] == self.shape.shape_array@[0] - 1 + offset@[0],
            r.shape.max_index@[1] == self.shape.shape_array@[1] - 1 + offset@[1],
            r.shape.inv(),
    {
        NoDataGrid {
            shape: GridBoundingBox {
                min_index: [offset[0], offset[1]],
                max_index: [
                    self.shape.shape_array[0] as isize - 1 + offset[0],
                    self.shape.shape_array[1] as isize - 1 + offset[1],
                ],
            },
            no_data_value: self.no_data_value,
        }
    }
}

impl<T: Copy> NoDataGrid<GridShape3D, T> {
    /// The number of axes of a three-dimensional grid.
    pub const NDIM: usize = 3;

    /// Translates the bounding box by an index offset; contents and
    /// sentinel are unchanged, only the coordinate frame moves.
    pub fn shift_by_offset(self, offset: [isize; 3]) -> (r: NoDataGrid<GridBoundingBox3D, T>)
        requires
            self.shape.inv(),
            isize::MIN <= self.shape.shape_array@[0] - 1 + offset@[0],
            self.shape.shape_array@[0] - 1 + offset@[0] <= isize::MAX,
            isize::MIN <= self.shape.shape_array@[1] - 1 + offset@[1],
            self.shape.shape_array@[1] - 1 + offset@[1] <= isize::MAX,
            isize::MIN <= self.shape.shape_array@[2] - 1 + offset@[2],
            self.shape.shape_array@[2] - 1 + offset@[2] <= isize::MAX,
        ensures
            r.no_data_value == self.no_data_value,
            r.shape.min_index@[0] == offset@[0],
            r.shape.min_index@[1] == offset@[1],
            r.shape.min_index@[2] == offset@[2],
            r.shape.max_index@[0] == self.shape.shape_array@[0] - 1 + offset@[0],
            r.shape.max_index@[1] == self.shape.shape_array@[1] - 1 + offset@[1],
            r.shape.max_index@[2] == self.shape.shape_array@[2] - 1 + offset@[2],
            r.shape.inv(),
    {
        NoDataGrid {
            shape: GridBoundingBox {
                min_index: [offset[0], offset[1], offset[2]],
                max_index: [
                    self.shape.shape_array[0] as isize - 1 + offset[0],
                    self.shape.shape_array[1] as isize - 1 + offset[1],
                    self.shape.shape_array[2] as isize - 1 + offset[2],
                ],
            },
            no_data_value: self.no_data_value,
        }
    }
}

} // verus!
