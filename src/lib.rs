//! Random geographic features: coordinate-reference systems with their
//! bounding boxes, and random points, line strings and polygons drawn inside
//! those bounds.
//!
//! Coordinates are fixed-point: one unit is 1e-8 of a degree
//! (`geometry::UNITS_PER_DEGREE` units make a degree), which represents every
//! bound of the supported systems exactly.

pub mod draw;
pub mod error;
pub mod geometry;
pub mod options;
pub mod text;
