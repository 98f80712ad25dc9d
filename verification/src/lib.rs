//! A small benchmark-comparison charting library.
//!
//! The pipeline takes a list of named timing results, validates them, lays a
//! horizontal bar chart out as a vector (SVG) document, rasterizes that
//! document at a caller-chosen pixel width with the aspect ratio preserved,
//! and encodes the pixels as PNG bytes. Font lookup is resolved once into an
//! explicit catalog so that the rendered output does not silently depend on
//! the host's default font configuration.

pub mod chart;
pub mod errors;
pub mod fonts;
pub mod pipeline;
pub mod raster;
pub mod text;
pub mod value;

pub use errors::ChartError;
