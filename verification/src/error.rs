//! The crate's typed errors.
//!
//! Every failure carries structured context (the offending index and the
//! valid range, expected versus found counts, the name of a missing band),
//! never a bare message string for programmatically relevant failures.

use vstd::prelude::*;

verus! {

/// The structural rule an operator's parameters broke.
#[derive(Debug, Clone, Copy, PartialEq, Eq, Structural)]
pub enum OperatorSpecIssue {
    /// A join needs exactly one output column name per raster source.
    RasterSourcesMustMatchNames,
}

/// What an operator requires of an upstream vector result.
#[derive(Debug, Clone, Copy, PartialEq, Eq, Structural)]
pub enum GeometryRequirement {
    /// Any geometry kind: points, lines or polygons, but not
    /// attribute-only data.
    AnyGeometry,
}

/// A typed failure of grid access, operator validation, query handling or
/// catalog resolution.
#[derive(Debug, Clone, PartialEq, Eq)]
#[allow(inconsistent_fields)]
pub enum Error {
    /// A grid access outside `[min_index, max_index]`.
    GridIndexOutOfBounds { index: Vec<i64>, min_index: Vec<i64>, max_index: Vec<i64> },
    /// Grid bounds whose maximum lies below their minimum on some axis.
    InvalidGridBounds { min_index: Vec<i64>, max_index: Vec<i64> },
    /// A dense grid whose data length differs from its shape's cell count.
    GridDataLengthMismatch { expected: usize, found: usize },
    /// An interval whose end lies before its start.
    InvalidTimeInterval { start: i64, end: i64 },
    /// An operator got a number of vector sources outside its declared range.
    InvalidNumberOfVectorInputs { expected_min: usize, expected_max: usize, found: usize },
    /// An operator got a number of raster sources outside its declared range.
    InvalidNumberOfRasterInputs { expected_min: usize, expected_max: usize, found: usize },
    /// A structural mismatch in an operator's parameters.
    InvalidOperatorSpec { reason: OperatorSpecIssue },
    /// An upstream result descriptor reports a type the operator cannot
    /// take.
    InvalidType { expected: GeometryRequirement, found: crate::descriptors::VectorDataType },
    /// A dataset identifier that the provider does not know.
    UnknownDatasetId,
    /// A requested band is absent from a catalog asset.
    StacNoSuchBand { band_name: String },
    /// A catalog asset without usable pixel dimensions.
    StacInvalidBbox,
    /// A catalog asset whose projected transform cannot be read.
    StacInvalidGeoTransform,
    /// A time instant that the external calendar cannot represent.
    NoDateTimeValid { time_instance: i64 },
    /// A coverage request with an unsupported protocol version.
    WcsVersionNotSupported,
    /// A coverage request whose explicit grid origin differs from the
    /// bounding box's upper-left corner.
    WcsGridOriginMustEqualBoundingboxUpperLeft,
    /// A coverage request whose bounding box carries a reference system
    /// other than the declared grid base system.
    WcsBoundingboxCrsMustEqualGridBaseCrs,
    /// A descriptor lacks a spatial reference where one is required.
    MissingSpatialReference,
    /// A descriptor carries a spatial reference that cannot be used here.
    InvalidSpatialReference,
    /// A pixel type that the coverage encoder cannot handle.
    RasterDataTypeNotSupportByGdal,
    /// No external address is configured for building service URLs.
    ExternalAddressNotConfigured,
    /// A capability that this core does not provide.
    NotYetImplemented,
    /// A colorizer with fewer than two breakpoints or breakpoints out of
    /// ascending order, or an image that could not be encoded.
    Colorizer { details: String },
}

} // verus!
