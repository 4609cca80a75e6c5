//! Lazy enumeration of the integer points of half-open 2D and 3D coordinate ranges.
//!
//! A shape (a range of points, a rectangle, a box) is brought to the half-open range that it
//! covers, and a scan gives the points of that range one by one: along x first, then y, then z.
//! A scan holds the range and a cursor, never the points.

pub mod geometry;
pub mod grid;
pub mod laws;
pub mod map;
pub mod new;
pub mod point2d_range_iterator;
pub mod point_range_iterator;
pub mod points;
pub mod scalar;
pub mod structure;
pub mod to_point_range;

pub use crate::map::Map2D;
pub use crate::map::Map3D;
pub use crate::point2d_range_iterator::Point2DRangeIterator;
pub use crate::points::Points;
pub use crate::structure::Structure2D;
pub use crate::to_point_range::ToPointRange;
