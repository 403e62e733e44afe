//! Spatial primitives: coordinates, bounding boxes, partitions and
//! resolutions, all in fixed-point micro-units (one millionth of a
//! coordinate unit), plus the query rectangle that drives execution.

use vstd::prelude::*;

use crate::time::TimeInterval;

verus! {

/// A planar coordinate in micro-units.
#[derive(Debug, Clone, Copy, PartialEq, Eq, Structural)]
pub struct Coordinate2D {
    pub x: i64,
    pub y: i64,
}

impl Coordinate2D {
    pub fn new(x: i64, y: i64) -> (r: Self)
        ensures
            r == (Coordinate2D { x, y }),
    {
        Coordinate2D { x, y }
    }
}

/// An axis-aligned rectangle given by its lower-left and upper-right
/// corners.
#[derive(Debug, Clone, Copy, PartialEq, Eq, Structural)]
pub struct BoundingBox2D {
    pub lower_left: Coordinate2D,
    pub upper_right: Coordinate2D,
}

impl BoundingBox2D {
    /// The corners are ordered: left of or at, below or at.
    pub open spec fn wf(self) -> bool {
        self.lower_left.x <= self.upper_right.x && self.lower_left.y <= self.upper_right.y
    }

    /// Builds a box from its upper-left and lower-right corners without
    /// checking their order.
    pub fn new_upper_left_lower_right_unchecked(upper_left: Coordinate2D, lower_right: Coordinate2D)
        -> (r: Self)
        ensures
            r.lower_left == (Coordinate2D { x: upper_left.x, y: lower_right.y }),
            r.upper_right == (Coordinate2D { x: lower_right.x, y: upper_left.y }),
    {
        BoundingBox2D {
            lower_left: Coordinate2D { x: upper_left.x, y: lower_right.y },
            upper_right: Coordinate2D { x: lower_right.x, y: upper_left.y },
        }
    }

    pub fn lower_left(&self) -> (r: Coordinate2D)
        ensures
            r == self.lower_left,
    {
        self.lower_left
    }

    pub fn upper_right(&self) -> (r: Coordinate2D)
        ensures
            r == self.upper_right,
    {
        self.upper_right
    }
}

/// An axis-aligned partition of space given by its upper-left and
/// lower-right corners (the vertical axis grows upward).
#[derive(Debug, Clone, Copy, PartialEq, Eq, Structural)]
pub struct SpatialPartition2D {
    pub upper_left: Coordinate2D,
    pub lower_right: Coordinate2D,
}

impl SpatialPartition2D {
    /// The corners are ordered: left of or at, above or at.
    pub open spec fn wf(self) -> bool {
        self.upper_left.x <= self.lower_right.x && self.lower_right.y <= self.upper_left.y
    }

    /// Builds a partition without checking the corner order.
    pub fn new_unchecked(upper_left: Coordinate2D, lower_right: Coordinate2D) -> (r: Self)
        ensures
            r == (SpatialPartition2D { upper_left, lower_right }),
    {
        SpatialPartition2D { upper_left, lower_right }
    }

    pub fn upper_left(&self) -> (r: Coordinate2D)
        ensures
            r == self.upper_left,
    {
        self.upper_left
    }

    pub fn lower_right(&self) -> (r: Coordinate2D)
        ensures
            r == self.lower_right,
    {
        self.lower_right
    }

    /// The horizontal extent, in micro-units.
    pub fn size_x(&self) -> (r: i64)
        requires
            self.wf(),
            self.lower_right.x - self.upper_left.x <= i64::MAX,
        ensures
            r == self.lower_right.x - self.upper_left.x,
    {
        self.lower_right.x - self.upper_left.x
    }

    /// The vertical extent, in micro-units.
    pub fn size_y(&self) -> (r: i64)
        requires
            self.wf(),
            self.upper_left.y - self.lower_right.y <= i64::MAX,
        ensures
            r == self.upper_left.y - self.lower_right.y,
    {
        self.upper_left.y - self.lower_right.y
    }
}

/// The size of one output pixel, in micro-units of the target reference
/// system per pixel.
#[derive(Debug, Clone, Copy, PartialEq, Eq, Structural)]
pub struct SpatialResolution {
    pub x: i64,
    pub y: i64,
}

impl SpatialResolution {
    /// A resolution is positive on both axes.
    pub open spec fn wf(self) -> bool {
        self.x > 0 && self.y > 0
    }

    /// One coordinate unit per pixel.
    pub fn one() -> (r: Self)
        ensures
            r == (SpatialResolution { x: 1_000_000i64, y: 1_000_000i64 }),
    {
        SpatialResolution { x: 1_000_000, y: 1_000_000 }
    }

    /// Builds a resolution without checking positivity.
    pub fn new_unchecked(x: i64, y: i64) -> (r: Self)
        ensures
            r == (SpatialResolution { x, y }),
    {
        SpatialResolution { x, y }
    }
}

/// The sole execution-time input of a raster query: spatial bounds, time
/// interval and output resolution, all in an explicit reference system.
#[derive(Debug, Clone, Copy, PartialEq, Eq, Structural)]
pub struct RasterQueryRectangle {
    pub spatial_bounds: SpatialPartition2D,
    pub time_interval: TimeInterval,
    pub spatial_resolution: SpatialResolution,
}

impl RasterQueryRectangle {
    /// The partition the query asks to be covered.
    pub fn spatial_partition(&self) -> (r: SpatialPartition2D)
        ensures
            r == self.spatial_bounds,
    {
        self.spatial_bounds
    }
}

} // verus!
