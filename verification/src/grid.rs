//! Axis-aligned grid shapes and bounding boxes, one to three dimensions.
//!
//! A grid space is an ordered tuple of per-axis index ranges. A
//! `GridShape` starts every axis at zero; a `GridBoundingBox` has an
//! arbitrary signed origin. A multi-index is a plain signed array, usable
//! both as an absolute index and as a relative offset.

use vstd::prelude::*;

use crate::error::Error;

verus! {

/// The product of a sequence of extents; the empty product is one.
pub open spec fn seq_product(s: Seq<int>) -> int
    decreases s.len(),
{
    if s.len() == 0 {
        1
    } else {
        s[0] * seq_product(s.skip(1))
    }
}

/// The per-axis extents of the index range `[min, max]`.
pub open spec fn axis_sizes(min: Seq<int>, max: Seq<int>) -> Seq<int> {
    Seq::new(min.len(), |i: int| max[i] - min[i] + 1)
}

/// How many cells the index range `[min, max]` holds.
pub open spec fn num_elements_spec(min: Seq<int>, max: Seq<int>) -> int {
    seq_product(axis_sizes(min, max))
}

/// Component-wise containment of a multi-index in `[min, max]`.
pub open spec fn contains_spec(min: Seq<int>, max: Seq<int>, idx: Seq<isize>) -> bool {
    idx.len() == min.len() && forall|i: int|
        0 <= i < min.len() ==> min[i] <= #[trigger] idx[i] <= max[i]
}

pub proof fn lemma_seq_product_1(s: Seq<int>)
    requires
        s.len() == 1,
    ensures
        seq_product(s) == s[0],
{
    reveal_with_fuel(seq_product, 3);
    assert(s.skip(1).len() == 0);
}

pub proof fn lemma_seq_product_2(s: Seq<int>)
    requires
        s.len() == 2,
    ensures
        seq_product(s) == s[0] * s[1],
{
    reveal_with_fuel(seq_product, 2);
    lemma_seq_product_1(s.skip(1));
    assert(s.skip(1)[0] == s[1]);
}

pub proof fn lemma_seq_product_3(s: Seq<int>)
    requires
        s.len() == 3,
    ensures
        seq_product(s) == s[0] * (s[1] * s[2]),
{
    reveal_with_fuel(seq_product, 2);
    lemma_seq_product_2(s.skip(1));
    assert(s.skip(1)[0] == s[1]);
    assert(s.skip(1)[1] == s[2]);
}

/// A space of multi-indices: per-axis index ranges with their invariant,
/// containment test and element count.
pub trait GridSpace: Sized {
    /// The multi-index array type, `[isize; N]` for this space's `N`.
    type IndexArray: View<V = Seq<isize>> + Copy;

    /// The per-axis extent array type, `[usize; N]`.
    type ShapeArray: View<V = Seq<usize>> + Copy;

    /// The space's internal invariant: the axes are consistent and the
    /// cell count fits the machine.
    spec fn inv(&self) -> bool;

    /// Per-axis smallest contained index.
    spec fn min_spec(&self) -> Seq<int>;

    /// Per-axis largest contained index.
    spec fn max_spec(&self) -> Seq<int>;

    /// What the invariant guarantees, uniformly over dimensions.
    proof fn lemma_inv(&self)
        requires
            self.inv(),
        ensures
            self.min_spec().len() == self.max_spec().len(),
            0 <= num_elements_spec(self.min_spec(), self.max_spec()) <= usize::MAX,
            forall|i: int|
                0 <= i < self.min_spec().len() ==> {
                    &&& self.min_spec()[i] - 1 <= self.max_spec()[i]
                    &&& isize::MIN <= self.min_spec()[i] <= isize::MAX
                    &&& isize::MIN <= self.max_spec()[i] <= isize::MAX
                    &&& self.max_spec()[i] - self.min_spec()[i] + 1 <= usize::MAX
                },
    ;

    /// The number of axes.
    fn ndim(&self) -> (n: usize)
        requires
            self.inv(),
        ensures
            n == self.min_spec().len(),
    ;

    /// The per-axis extents.
    fn axis_size(&self) -> (r: Self::ShapeArray)
        requires
            self.inv(),
        ensures
            r@.len() == self.min_spec().len(),
            forall|i: int|
                0 <= i < r@.len() ==> r@[i] == self.max_spec()[i] - self.min_spec()[i] + 1,
    ;

    /// How many cells the space holds.
    fn number_of_elements(&self) -> (n: usize)
        requires
            self.inv(),
        ensures
            n == num_elements_spec(self.min_spec(), self.max_spec()),
    ;

    /// The smallest contained multi-index.
    fn min_index(&self) -> (r: Self::IndexArray)
        requires
            self.inv(),
        ensures
            r@.len() == self.min_spec().len(),
            forall|i: int| 0 <= i < r@.len() ==> r@[i] == self.min_spec()[i],
    ;

    /// The largest contained multi-index (component-wise; one below the
    /// minimum on every axis when the space is empty).
    fn max_index(&self) -> (r: Self::IndexArray)
        requires
            self.inv(),
        ensures
            r@.len() == self.max_spec().len(),
            forall|i: int| 0 <= i < r@.len() ==> r@[i] == self.max_spec()[i],
    ;

    /// Component-wise containment of `idx`.
    fn contains(&self, idx: &Self::IndexArray) -> (r: bool)
        requires
            self.inv(),
        ensures
            r == contains_spec(self.min_spec(), self.max_spec(), idx@),
    ;

    /// The row-major position of `idx` among the space's cells.
    fn linear_index(&self, idx: &Self::IndexArray) -> (r: usize)
        requires
            self.inv(),
            contains_spec(self.min_spec(), self.max_spec(), idx@),
        ensures
            r == linear_spec(self.min_spec(), self.max_spec(), idx@),
            r < num_elements_spec(self.min_spec(), self.max_spec()),
    ;

    /// A multi-index copied into a plain vector, for error reports.
    fn index_as_vec(idx: &Self::IndexArray) -> (r: Vec<i64>)
        ensures
            r@.len() == idx@.len(),
            forall|i: int| 0 <= i < r@.len() ==> r@[i] == idx@[i] as i64,
    ;
}

/// The row-major position of `idx` within `[min, max]`, processing axes
/// from the first (slowest) to the last (fastest).
pub open spec fn linear_spec(min: Seq<int>, max: Seq<int>, idx: Seq<isize>) -> int
    decreases min.len(),
{
    if min.len() == 0 {
        0
    } else {
        linear_spec(min.drop_last(), max.drop_last(), idx.drop_last()) * (max.last() - min.last()
            + 1) + (idx.last() - min.last())
    }
}

/// A grid shape: every axis runs from zero to its extent minus one.
#[derive(Debug, Clone, Copy, PartialEq, Eq, Structural)]
pub struct GridShape<A> {
    pub shape_array: A,
}

pub type GridShape1D = GridShape<[usize; 1]>;

pub type GridShape2D = GridShape<[usize; 2]>;

pub type GridShape3D = GridShape<[usize; 3]>;

impl<A> GridShape<A> {
    pub fn new(shape_array: A) -> (r: Self)
        ensures
            r == (GridShape { shape_array }),
    {
        GridShape { shape_array }
    }
}

impl From<[usize; 1]> for GridShape<[usize; 1]> {
    fn from(shape_array: [usize; 1]) -> (r: Self) {
        GridShape { shape_array }
    }
}

impl vstd::std_specs::convert::FromSpecImpl<[usize; 1]> for GridShape<[usize; 1]> {
    open spec fn obeys_from_spec() -> bool {
        true
    }

    open spec fn from_spec(v: [usize; 1]) -> Self {
        GridShape { shape_array: v }
    }
}

impl From<[usize; 2]> for GridShape<[usize; 2]> {
    fn from(shape_array: [usize; 2]) -> (r: Self) {
        GridShape { shape_array }
    }
}

impl vstd::std_specs::convert::FromSpecImpl<[usize; 2]> for GridShape<[usize; 2]> {
    open spec fn obeys_from_spec() -> bool {
        true
    }

    open spec fn from_spec(v: [usize; 2]) -> Self {
        GridShape { shape_array: v }
    }
}

impl From<[usize; 3]> for GridShape<[usize; 3]> {
    fn from(shape_array: [usize; 3]) -> (r: Self) {
        GridShape { shape_array }
    }
}

impl vstd::std_specs::convert::FromSpecImpl<[usize; 3]> for GridShape<[usize; 3]> {
    open spec fn obeys_from_spec() -> bool {
        true
    }

    open spec fn from_spec(v: [usize; 3]) -> Self {
        GridShape { shape_array: v }
    }
}

/// An index range with an arbitrary signed origin: the axes run from
/// `min_index` to `max_index`, component-wise.
#[derive(Debug, Clone, Copy, PartialEq, Eq, Structural)]
pub struct GridBoundingBox<A> {
    pub min_index: A,
    pub max_index: A,
}

pub type GridBoundingBox1D = GridBoundingBox<[isize; 1]>;

pub type GridBoundingBox2D = GridBoundingBox<[isize; 2]>;

pub type GridBoundingBox3D = GridBoundingBox<[isize; 3]>;

impl GridSpace for GridShape<[usize; 2]> {
    type IndexArray = [isize; 2];

    type ShapeArray = [usize; 2];

    open spec fn inv(&self) -> bool {
        &&& self.shape_array@[0] <= isize::MAX
        &&& self.shape_array@[1] <= isize::MAX
        &&& self.shape_array@[0] * self.shape_array@[1] <= usize::MAX
    }

    open spec fn min_spec(&self) -> Seq<int> {
        seq![0int, 0int]
    }

    open spec fn max_spec(&self) -> Seq<int> {
        seq![self.shape_array@[0] - 1, self.shape_array@[1] - 1]
    }

    proof fn lemma_inv(&self) {
        lemma_seq_product_2(axis_sizes(self.min_spec(), self.max_spec()));
        assert(axis_sizes(self.min_spec(), self.max_spec())[0] == self.shape_array@[0]);
        assert(axis_sizes(self.min_spec(), self.max_spec())[1] == self.shape_array@[1]);
        assert(self.shape_array@[0] * self.shape_array@[1] >= 0) by (nonlinear_arith);
    }

    fn ndim(&self) -> (n: usize) {
        2
    }

    fn axis_size(&self) -> (r: [usize; 2]) {
        self.shape_array
    }

    fn number_of_elements(&self) -> (n: usize) {
        proof {
            self.lemma_inv();
            lemma_seq_product_2(axis_sizes(self.min_spec(), self.max_spec()));
            assert(axis_sizes(self.min_spec(), self.max_spec())[0] == self.shape_array@[0]);
            assert(axis_sizes(self.min_spec(), self.max_spec())[1] == self.shape_array@[1]);
        }
        self.shape_array[0] * self.shape_array[1]
    }

    fn min_index(&self) -> (r: [isize; 2]) {
        [0, 0]
    }

    fn max_index(&self) -> (r: [isize; 2]) {
        [self.shape_array[0] as isize - 1, self.shape_array[1] as isize - 1]
    }

    fn contains(&self, idx: &[isize; 2]) -> (r: bool) {
        0 <= idx[0] && (idx[0] as usize) < self.shape_array[0] && 0 <= idx[1] && (idx[1] as usize)
            < self.shape_array[1]
    }

    fn linear_index(&self, idx: &[isize; 2]) -> (r: usize) {
        proof {
            self.lemma_inv();
            lemma_linear_2(self.min_spec(), self.max_spec(), idx@);
        }
        (idx[0] as usize) * self.shape_array[1] + (idx[1] as usize)
    }

    fn index_as_vec(idx: &[isize; 2]) -> (r: Vec<i64>) {
        vec![idx[0] as i64, idx[1] as i64]
    }
}

impl GridSpace for GridShape<[usize; 1]> {
    type IndexArray = [isize; 1];

    type ShapeArray = [usize; 1];

    open spec fn inv(&self) -> bool {
        self.shape_array@[0] <= isize::MAX
    }

    open spec fn min_spec(&self) -> Seq<int> {
        seq![0int]
    }

    open spec fn max_spec(&self) -> Seq<int> {
        seq![self.shape_array@[0] - 1]
    }

    proof fn lemma_inv(&self) {
        lemma_seq_product_1(axis_sizes(self.min_spec(), self.max_spec()));
        assert(axis_sizes(self.min_spec(), self.max_spec())[0] == self.shape_array@[0]);
    }

    fn ndim(&self) -> (n: usize) {
        1
    }

    fn axis_size(&self) -> (r: [usize; 1]) {
        self.shape_array
    }

    fn number_of_elements(&self) -> (n: usize) {
        proof {
            self.lemma_inv();
            lemma_seq_product_1(axis_sizes(self.min_spec(), self.max_spec()));
            assert(axis_sizes(self.min_spec(), self.max_spec())[0] == self.shape_array@[0]);
        }
        self.shape_array[0]
    }

    fn min_index(&self) -> (r: [isize; 1]) {
        [0]
    }

    fn max_index(&self) -> (r: [isize; 1]) {
        [self.shape_array[0] as isize - 1]
    }

    fn contains(&self, idx: &[isize; 1]) -> (r: bool) {
        0 <= idx[0] && (idx[0] as usize) < self.shape_array[0]
    }

    fn linear_index(&self, idx: &[isize; 1]) -> (r: usize) {
        proof {
            self.lemma_inv();
            lemma_linear_1(self.min_spec(), self.max_spec(), idx@);
        }
        idx[0] as usize
    }

    fn index_as_vec(idx: &[isize; 1]) -> (r: Vec<i64>) {
        vec![idx[0] as i64]
    }
}

impl GridSpace for GridShape<[usize; 3]> {
    type IndexArray = [isize; 3];

    type ShapeArray = [usize; 3];

    open spec fn inv(&self) -> bool {
        &&& self.shape_array@[0] <= isize::MAX
        &&& self.shape_array@[1] <= isize::MAX
        &&& self.shape_array@[2] <= isize::MAX
        &&& self.shape_array@[1] * self.shape_array@[2] <= usize::MAX
        &&& self.shape_array@[0] * (self.shape_array@[1] * self.shape_array@[2]) <= usize::MAX
    }

    open spec fn min_spec(&self) -> Seq<int> {
        seq![0int, 0int, 0int]
    }

    open spec fn max_spec(&self) -> Seq<int> {
        seq![self.shape_array@[0] - 1, self.shape_array@[1] - 1, self.shape_array@[2] - 1]
    }

    proof fn lemma_inv(&self) {
        lemma_seq_product_3(axis_sizes(self.min_spec(), self.max_spec()));
        assert(axis_sizes(self.min_spec(), self.max_spec())[0] == self.shape_array@[0]);
        assert(axis_sizes(self.min_spec(), self.max_spec())[1] == self.shape_array@[1]);
        assert(axis_sizes(self.min_spec(), self.max_spec())[2] == self.shape_array@[2]);
        assert(self.shape_array@[0] * (self.shape_array@[1] * self.shape_array@[2]) >= 0)
            by (nonlinear_arith);
    }

    fn ndim(&self) -> (n: usize) {
        3
    }

    fn axis_size(&self) -> (r: [usize; 3]) {
        self.shape_array
    }

    fn number_of_elements(&self) -> (n: usize) {
        proof {
            self.lemma_inv();
            lemma_seq_product_3(axis_sizes(self.min_spec(), self.max_spec()));
            assert(axis_sizes(self.min_spec(), self.max_spec())[0] == self.shape_array@[0]);
            assert(axis_sizes(self.min_spec(), self.max_spec())[1] == self.shape_array@[1]);
            assert(axis_sizes(self.min_spec(), self.max_spec())[2] == self.shape_array@[2]);
        }
        self.shape_array[0] * (self.shape_array[1] * self.shape_array[2])
    }

    fn min_index(&self) -> (r: [isize; 3]) {
        [0, 0, 0]
    }

    fn max_index(&self) -> (r: [isize; 3]) {
        [
            self.shape_array[0] as isize - 1,
            self.shape_array[1] as isize - 1,
            self.shape_array[2] as isize - 1,
        ]
    }

    fn contains(&self, idx: &[isize; 3]) -> (r: bool) {
        0 <= idx[0] && (idx[0] as usize) < self.shape_array[0] && 0 <= idx[1] && (idx[1] as usize)
            < self.shape_array[1] && 0 <= idx[2] && (idx[2] as usize) < self.shape_array[2]
    }

    fn linear_index(&self, idx: &[isize; 3]) -> (r: usize) {
        proof {
            self.lemma_inv();
            lemma_linear_3(self.min_spec(), self.max_spec(), idx@);
            let s0 = self.shape_array@[0] as int;
            let s1 = self.shape_array@[1] as int;
            let s2 = self.shape_array@[2] as int;
            let a0 = idx@[0] as int;
            let a1 = idx@[1] as int;
            assert(a0 * s1 + a1 <= s0 * s1 - 1 && s0 * s1 <= s0 * (s1 * s2))
                by (nonlinear_arith)
                requires
                    0 <= a0 <= s0 - 1,
                    0 <= a1 <= s1 - 1,
                    1 <= s2,
            ;
        }
        ((idx[0] as usize) * self.shape_array[1] + (idx[1] as usize)) * self.shape_array[2] + (
        idx[2] as usize)
    }

    fn index_as_vec(idx: &[isize; 3]) -> (r: Vec<i64>) {
        vec![idx[0] as i64, idx[1] as i64, idx[2] as i64]
    }
}

/// Unfolds the row-major position for one axis and bounds it by the cell
/// count.
proof fn lemma_linear_1(min: Seq<int>, max: Seq<int>, idx: Seq<isize>)
    requires
        min.len() == 1,
        max.len() == 1,
        contains_spec(min, max, idx),
    ensures
        linear_spec(min, max, idx) == idx[0] - min[0],
        0 <= linear_spec(min, max, idx) < num_elements_spec(min, max),
{
    reveal_with_fuel(linear_spec, 2);
    lemma_seq_product_1(axis_sizes(min, max));
}

/// Unfolds the row-major position for two axes and bounds it by the cell
/// count.
proof fn lemma_linear_2(min: Seq<int>, max: Seq<int>, idx: Seq<isize>)
    requires
        min.len() == 2,
        max.len() == 2,
        contains_spec(min, max, idx),
    ensures
        linear_spec(min, max, idx) == (idx[0] - min[0]) * (max[1] - min[1] + 1) + (idx[1] - min[1]),
        0 <= linear_spec(min, max, idx) < num_elements_spec(min, max),
{
    reveal_with_fuel(linear_spec, 3);
    lemma_seq_product_2(axis_sizes(min, max));
    let s1 = max[1] - min[1] + 1;
    let s0 = max[0] - min[0] + 1;
    let a0 = idx[0] - min[0];
    let a1 = idx[1] - min[1];
    assert(linear_spec(min, max, idx) == a0 * s1 + a1);
    assert(num_elements_spec(min, max) == s0 * s1);
    assert(a0 * s1 + a1 < s0 * s1) by (nonlinear_arith)
        requires
            0 <= a0 < s0,
            0 <= a1 < s1,
    ;
    assert(a0 * s1 >= 0) by (nonlinear_arith)
        requires
            0 <= a0,
            0 < s1,
    ;
}

/// Unfolds the row-major position for three axes and bounds it by the
/// cell count.
proof fn lemma_linear_3(min: Seq<int>, max: Seq<int>, idx: Seq<isize>)
    requires
        min.len() == 3,
        max.len() == 3,
        contains_spec(min, max, idx),
    ensures
        linear_spec(min, max, idx) == ((idx[0] - min[0]) * (max[1] - min[1] + 1) + (idx[1]
            - min[1])) * (max[2] - min[2] + 1) + (idx[2] - min[2]),
        0 <= linear_spec(min, max, idx) < num_elements_spec(min, max),
{
    reveal_with_fuel(linear_spec, 4);
    lemma_seq_product_3(axis_sizes(min, max));
    let s0 = max[0] - min[0] + 1;
    let s1 = max[1] - min[1] + 1;
    let s2 = max[2] - min[2] + 1;
    let a0 = idx[0] - min[0];
    let a1 = idx[1] - min[1];
    let a2 = idx[2] - min[2];
    let m1 = min.drop_last();
    let m2 = m1.drop_last();
    assert(linear_spec(m2, max.drop_last().drop_last(), idx.drop_last().drop_last()) == a0);
    assert(linear_spec(m1, max.drop_last(), idx.drop_last()) == a0 * s1 + a1);
    assert(linear_spec(min, max, idx) == (a0 * s1 + a1) * s2 + a2);
    assert(num_elements_spec(min, max) == s0 * (s1 * s2));
    assert(0 <= (a0 * s1 + a1) * s2 + a2 < s0 * (s1 * s2)) by (nonlinear_arith)
        requires
            0 <= a0 < s0,
            0 <= a1 < s1,
            0 <= a2 < s2,
    ;
}

impl GridBoundingBox<[isize; 1]> {
    /// Creates validated bounds: rejects a maximum below the minimum.
    pub fn new(min_index: [isize; 1], max_index: [isize; 1]) -> (r: Result<Self, Error>)
        requires
            max_index@[0] - min_index@[0] + 1 <= usize::MAX,
        ensures
            r is Ok <==> min_index@[0] <= max_index@[0],
            r matches Ok(b) ==> b == (GridBoundingBox { min_index, max_index }) && b.inv(),
    {
        if min_index[0] <= max_index[0] {
            Ok(GridBoundingBox { min_index, max_index })
        } else {
            Err(
                Error::InvalidGridBounds {
                    min_index: Self::index_as_vec(&min_index),
                    max_index: Self::index_as_vec(&max_index),
                },
            )
        }
    }
}

impl GridBoundingBox<[isize; 2]> {
    /// Creates validated bounds: rejects a maximum below the minimum on
    /// any axis.
    pub fn new(min_index: [isize; 2], max_index: [isize; 2]) -> (r: Result<Self, Error>)
        requires
            max_index@[0] - min_index@[0] + 1 <= usize::MAX,
            max_index@[1] - min_index@[1] + 1 <= usize::MAX,
            (max_index@[0] - min_index@[0] + 1) * (max_index@[1] - min_index@[1] + 1)
                <= usize::MAX,
        ensures
            r is Ok <==> (min_index@[0] <= max_index@[0] && min_index@[1] <= max_index@[1]),
            r matches Ok(b) ==> b == (GridBoundingBox { min_index, max_index }) && b.inv(),
    {
        if min_index[0] <= max_index[0] && min_index[1] <= max_index[1] {
            Ok(GridBoundingBox { min_index, max_index })
        } else {
            Err(
                Error::InvalidGridBounds {
                    min_index: Self::index_as_vec(&min_index),
                    max_index: Self::index_as_vec(&max_index),
                },
            )
        }
    }
}

impl GridBoundingBox<[isize; 3]> {
    /// Creates validated bounds: rejects a maximum below the minimum on
    /// any axis.
    pub fn new(min_index: [isize; 3], max_index: [isize; 3]) -> (r: Result<Self, Error>)
        requires
            max_index@[0] - min_index@[0] + 1 <= usize::MAX,
            max_index@[1] - min_index@[1] + 1 <= usize::MAX,
            max_index@[2] - min_index@[2] + 1 <= usize::MAX,
            (max_index@[1] - min_index@[1] + 1) * (max_index@[2] - min_index@[2] + 1)
                <= usize::MAX,
            (max_index@[0] - min_index@[0] + 1) * ((max_index@[1] - min_index@[1] + 1) * (
            max_index@[2] - min_index@[2] + 1)) <= usize::MAX,
        ensures
            r is Ok <==> (min_index@[0] <= max_index@[0] && min_index@[1] <= max_index@[1]
                && min_index@[2] <= max_index@[2]),
            r matches Ok(b) ==> b == (GridBoundingBox { min_index, max_index }) && b.inv(),
    {
        if min_index[0] <= max_index[0] && min_index[1] <= max_index[1] && min_index[2]
            <= max_index[2] {
            Ok(GridBoundingBox { min_index, max_index })
        } else {
            Err(
                Error::InvalidGridBounds {
                    min_index: Self::index_as_vec(&min_index),
                    max_index: Self::index_as_vec(&max_index),
                },
            )
        }
    }
}

impl GridSpace for GridBoundingBox<[isize; 1]> {
    type IndexArray = [isize; 1];

    type ShapeArray = [usize; 1];

    open spec fn inv(&self) -> bool {
        &&& self.min_index@[0] - 1 <= self.max_index@[0]
        &&& self.max_index@[0] - self.min_index@[0] + 1 <= usize::MAX
    }

    open spec fn min_spec(&self) -> Seq<int> {
        seq![self.min_index@[0] as int]
    }

    open spec fn max_spec(&self) -> Seq<int> {
        seq![self.max_index@[0] as int]
    }

    proof fn lemma_inv(&self) {
        lemma_seq_product_1(axis_sizes(self.min_spec(), self.max_spec()));
        assert(axis_sizes(self.min_spec(), self.max_spec())[0] == self.max_index@[0]
            - self.min_index@[0] + 1);
    }

    fn ndim(&self) -> (n: usize) {
        1
    }

    fn axis_size(&self) -> (r: [usize; 1]) {
        [((self.max_index[0] as i128) - (self.min_index[0] as i128) + 1) as usize]
    }

    fn number_of_elements(&self) -> (n: usize) {
        proof {
            self.lemma_inv();
            lemma_seq_product_1(axis_sizes(self.min_spec(), self.max_spec()));
            assert(axis_sizes(self.min_spec(), self.max_spec())[0] == self.max_index@[0]
                - self.min_index@[0] + 1);
        }
        ((self.max_index[0] as i128) - (self.min_index[0] as i128) + 1) as usize
    }

    fn min_index(&self) -> (r: [isize; 1]) {
        self.min_index
    }

    fn max_index(&self) -> (r: [isize; 1]) {
        self.max_index
    }

    fn contains(&self, idx: &[isize; 1]) -> (r: bool) {
        self.min_index[0] <= idx[0] && idx[0] <= self.max_index[0]
    }

    fn linear_index(&self, idx: &[isize; 1]) -> (r: usize) {
        proof {
            self.lemma_inv();
            lemma_linear_1(self.min_spec(), self.max_spec(), idx@);
        }
        ((idx[0] as i128) - (self.min_index[0] as i128)) as usize
    }

    fn index_as_vec(idx: &[isize; 1]) -> (r: Vec<i64>) {
        vec![idx[0] as i64]
    }
}

impl GridSpace for GridBoundingBox<[isize; 2]> {
    type IndexArray = [isize; 2];

    type ShapeArray = [usize; 2];

    open spec fn inv(&self) -> bool {
        &&& self.min_index@[0] - 1 <= self.max_index@[0]
        &&& self.min_index@[1] - 1 <= self.max_index@[1]
        &&& self.max_index@[0] - self.min_index@[0] + 1 <= usize::MAX
        &&& self.max_index@[1] - self.min_index@[1] + 1 <= usize::MAX
        &&& (self.max_index@[0] - self.min_index@[0] + 1) * (self.max_index@[1]
            - self.min_index@[1] + 1) <= usize::MAX
    }

    open spec fn min_spec(&self) -> Seq<int> {
        seq![self.min_index@[0] as int, self.min_index@[1] as int]
    }

    open spec fn max_spec(&self) -> Seq<int> {
        seq![self.max_index@[0] as int, self.max_index@[1] as int]
    }

    proof fn lemma_inv(&self) {
        lemma_seq_product_2(axis_sizes(self.min_spec(), self.max_spec()));
        let s0 = self.max_index@[0] - self.min_index@[0] + 1;
        let s1 = self.max_index@[1] - self.min_index@[1] + 1;
        assert(axis_sizes(self.min_spec(), self.max_spec())[0] == s0);
        assert(axis_sizes(self.min_spec(), self.max_spec())[1] == s1);
        assert(s0 * s1 >= 0) by (nonlinear_arith)
            requires
                s0 >= 0,
                s1 >= 0,
        ;
    }

    fn ndim(&self) -> (n: usize) {
        2
    }

    fn axis_size(&self) -> (r: [usize; 2]) {
        [
            ((self.max_index[0] as i128) - (self.min_index[0] as i128) + 1) as usize,
            ((self.max_index[1] as i128) - (self.min_index[1] as i128) + 1) as usize,
        ]
    }

    fn number_of_elements(&self) -> (n: usize) {
        proof {
            self.lemma_inv();
            lemma_seq_product_2(axis_sizes(self.min_spec(), self.max_spec()));
            assert(axis_sizes(self.min_spec(), self.max_spec())[0] == self.max_index@[0]
                - self.min_index@[0] + 1);
            assert(axis_sizes(self.min_spec(), self.max_spec())[1] == self.max_index@[1]
                - self.min_index@[1] + 1);
        }
        let s0 = ((self.max_index[0] as i128) - (self.min_index[0] as i128) + 1) as usize;
        let s1 = ((self.max_index[1] as i128) - (self.min_index[1] as i128) + 1) as usize;
        s0 * s1
    }

    fn min_index(&self) -> (r: [isize; 2]) {
        self.min_index
    }

    fn max_index(&self) -> (r: [isize; 2]) {
        self.max_index
    }

    fn contains(&self, idx: &[isize; 2]) -> (r: bool) {
        self.min_index[0] <= idx[0] && idx[0] <= self.max_index[0] && self.min_index[1] <= idx[1]
            && idx[1] <= self.max_index[1]
    }

    fn linear_index(&self, idx: &[isize; 2]) -> (r: usize) {
        proof {
            self.lemma_inv();
            lemma_linear_2(self.min_spec(), self.max_spec(), idx@);
        }
        let a0 = ((idx[0] as i128) - (self.min_index[0] as i128)) as usize;
        let a1 = ((idx[1] as i128) - (self.min_index[1] as i128)) as usize;
        let s1 = ((self.max_index[1] as i128) - (self.min_index[1] as i128) + 1) as usize;
        a0 * s1 + a1
    }

    fn index_as_vec(idx: &[isize; 2]) -> (r: Vec<i64>) {
        vec![idx[0] as i64, idx[1] as i64]
    }
}

impl GridSpace for GridBoundingBox<[isize; 3]> {
    type IndexArray = [isize; 3];

    type ShapeArray = [usize; 3];

    open spec fn inv(&self) -> bool {
        &&& self.min_index@[0] - 1 <= self.max_index@[0]
        &&& self.min_index@[1] - 1 <= self.max_index@[1]
        &&& self.min_index@[2] - 1 <= self.max_index@[2]
        &&& self.max_index@[0] - self.min_index@[0] + 1 <= usize::MAX
        &&& self.max_index@[1] - self.min_index@[1] + 1 <= usize::MAX
        &&& self.max_index@[2] - self.min_index@[2] + 1 <= usize::MAX
        &&& (self.max_index@[1] - self.min_index@[1] + 1) * (self.max_index@[2]
            - self.min_index@[2] + 1) <= usize::MAX
        &&& (self.max_index@[0] - self.min_index@[0] + 1) * ((self.max_index@[1]
            - self.min_index@[1] + 1) * (self.max_index@[2] - self.min_index@[2] + 1))
            <= usize::MAX
    }

    open spec fn min_spec(&self) -> Seq<int> {
        seq![self.min_index@[0] as int, self.min_index@[1] as int, self.min_index@[2] as int]
    }

    open spec fn max_spec(&self) -> Seq<int> {
        seq![self.max_index@[0] as int, self.max_index@[1] as int, self.max_index@[2] as int]
    }

    proof fn lemma_inv(&self) {
        lemma_seq_product_3(axis_sizes(self.min_spec(), self.max_spec()));
        let s0 = self.max_index@[0] - self.min_index@[0] + 1;
        let s1 = self.max_index@[1] - self.min_index@[1] + 1;
        let s2 = self.max_index@[2] - self.min_index@[2] + 1;
        assert(axis_sizes(self.min_spec(), self.max_spec())[0] == s0);
        assert(axis_sizes(self.min_spec(), self.max_spec())[1] == s1);
        assert(axis_sizes(self.min_spec(), self.max_spec())[2] == s2);
        assert(s0 * (s1 * s2) >= 0) by (nonlinear_arith)
            requires
                s0 >= 0,
                s1 >= 0,
                s2 >= 0,
        ;
    }

    fn ndim(&self) -> (n: usize) {
        3
    }

    fn axis_size(&self) -> (r: [usize; 3]) {
        [
            ((self.max_index[0] as i128) - (self.min_index[0] as i128) + 1) as usize,
            ((self.max_index[1] as i128) - (self.min_index[1] as i128) + 1) as usize,
            ((self.max_index[2] as i128) - (self.min_index[2] as i128) + 1) as usize,
        ]
    }

    fn number_of_elements(&self) -> (n: usize) {
        proof {
            self.lemma_inv();
            lemma_seq_product_3(axis_sizes(self.min_spec(), self.max_spec()));
            assert(axis_sizes(self.min_spec(), self.max_spec())[0] == self.max_index@[0]
                - self.min_index@[0] + 1);
            assert(axis_sizes(self.min_spec(), self.max_spec())[1] == self.max_index@[1]
                - self.min_index@[1] + 1);
            assert(axis_sizes(self.min_spec(), self.max_spec())[2] == self.max_index@[2]
                - self.min_index@[2] + 1);
        }
        let s0 = ((self.max_index[0] as i128) - (self.min_index[0] as i128) + 1) as usize;
        let s1 = ((self.max_index[1] as i128) - (self.min_index[1] as i128) + 1) as usize;
        let s2 = ((self.max_index[2] as i128) - (self.min_index[2] as i128) + 1) as usize;
        s0 * (s1 * s2)
    }

    fn min_index(&self) -> (r: [isize; 3]) {
        self.min_index
    }

    fn max_index(&self) -> (r: [isize; 3]) {
        self.max_index
    }

    fn contains(&self, idx: &[isize; 3]) -> (r: bool) {
        self.min_index[0] <= idx[0] && idx[0] <= self.max_index[0] && self.min_index[1] <= idx[1]
            && idx[1] <= self.max_index[1] && self.min_index[2] <= idx[2] && idx[2]
            <= self.max_index[2]
    }

    fn linear_index(&self, idx: &[isize; 3]) -> (r: usize) {
        proof {
            self.lemma_inv();
            lemma_linear_3(self.min_spec(), self.max_spec(), idx@);
            let s0 = self.max_index@[0] - self.min_index@[0] + 1;
            let s1 = self.max_index@[1] - self.min_index@[1] + 1;
            let s2 = self.max_index@[2] - self.min_index@[2] + 1;
            let a0 = idx@[0] - self.min_index@[0];
            let a1 = idx@[1] - self.min_index@[1];
            assert(a0 * s1 + a1 <= s0 * s1 - 1 && s0 * s1 <= s0 * (s1 * s2))
                by (nonlinear_arith)
                requires
                    0 <= a0 <= s0 - 1,
                    0 <= a1 <= s1 - 1,
                    1 <= s2,
            ;
        }
        let a0 = ((idx[0] as i128) - (self.min_index[0] as i128)) as usize;
        let a1 = ((idx[1] as i128) - (self.min_index[1] as i128)) as usize;
        let a2 = ((idx[2] as i128) - (self.min_index[2] as i128)) as usize;
        let s1 = ((self.max_index[1] as i128) - (self.min_index[1] as i128) + 1) as usize;
        let s2 = ((self.max_index[2] as i128) - (self.min_index[2] as i128) + 1) as usize;
        (a0 * s1 + a1) * s2 + a2
    }

    fn index_as_vec(idx: &[isize; 3]) -> (r: Vec<i64>) {
        vec![idx[0] as i64, idx[1] as i64, idx[2] as i64]
    }
}

} // verus!
