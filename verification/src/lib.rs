//! Core of a geospatial query-processing engine.
//!
//! The crate models N-dimensional grids with a no-data sentinel, typed
//! operator graphs that validate into executable query processors, the
//! spatial/temporal query-rectangle protocol, and the resolution of a
//! time-stamped external tile catalog into concrete load instructions.
//!
//! Coordinates, pixel sizes and no-data sentinels are carried as
//! fixed-point integers (micro-units, one millionth of a coordinate
//! unit), so that all bounds and window arithmetic is exact.

pub mod colorizer;
pub mod datetime;
pub mod dense_grid;
pub mod descriptors;
pub mod engine;
pub mod error;
pub mod fmtnum;
pub mod grid;
pub mod image_ops;
pub mod no_data_grid;
pub mod pixel;
pub mod processor;
pub mod primitives;
pub mod sentinel;
pub mod stac;
pub mod time;
pub mod wcs;

pub use error::Error;
pub use time::TimeInterval;
