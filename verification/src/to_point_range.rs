//! Normalization of shapes: every supported shape is brought to the half-open range of points,
//! from a start up to and without an end, that it covers.

use vstd::prelude::*;
use std::ops::Range;
use crate::geometry::Box2D;
use crate::geometry::Box3D;
use crate::geometry::Point2D;
use crate::geometry::Point3D;
use crate::geometry::Rect;
use crate::scalar::PointRangeIteratorPrimitive;

verus! {

/// A shape that covers a half-open range of points.
pub trait ToPointRange: Sized {
    /// The points that the shape is made of.
    type Point;

    /// Whether the scalar type can hold both ends of the range that the shape covers.
    spec fn has_point_range(self) -> bool;

    /// The range that the shape covers.
    spec fn point_range(self) -> Range<Self::Point>;

    /// The range that the shape covers. The ends are taken as the shape gives them: a range
    /// whose end is not above its start is handed on as it is, and holds no point.
    fn to_point_range(self) -> (range: Range<Self::Point>)
        requires
            self.has_point_range(),
        ensures
            range == self.point_range(),
    ;
}

impl<T, U> ToPointRange for Range<Point2D<T, U>> {
    type Point = Point2D<T, U>;

    /// A range has its two ends already.
    open spec fn has_point_range(self) -> bool {
        true
    }

    /// A range covers itself.
    open spec fn point_range(self) -> Range<Point2D<T, U>> {
        self
    }

    fn to_point_range(self) -> (range: Self) {
        self
    }
}

impl<T: PointRangeIteratorPrimitive, U> ToPointRange for Rect<T, U> {
    type Point = Point2D<T, U>;

    /// The end of a rectangle is computed: the scalar type must be able to hold it.
    open spec fn has_point_range(self) -> bool {
        self.origin.can_add_size(self.size)
    }

    /// A rectangle covers the range from its origin to its origin moved by its size.
    open spec fn point_range(self) -> Range<Point2D<T, U>> {
        Range { start: self.origin, end: self.origin.spec_add_size(self.size) }
    }

    fn to_point_range(self) -> (range: Range<Point2D<T, U>>) {
        let end = self.origin.add_size(self.size);
        Range { start: self.origin, end }
    }
}

impl<T, U> ToPointRange for Box2D<T, U> {
    type Point = Point2D<T, U>;

    /// A box has its two ends already.
    open spec fn has_point_range(self) -> bool {
        true
    }

    /// A box covers the range from its `min` to its `max`.
    open spec fn point_range(self) -> Range<Point2D<T, U>> {
        Range { start: self.min, end: self.max }
    }

    fn to_point_range(self) -> (range: Range<Point2D<T, U>>) {
        Range { start: self.min, end: self.max }
    }
}

impl<T, U> ToPointRange for Range<Point3D<T, U>> {
    type Point = Point3D<T, U>;

    /// A range has its two ends already.
    open spec fn has_point_range(self) -> bool {
        true
    }

    /// A range covers itself.
    open spec fn point_range(self) -> Range<Point3D<T, U>> {
        self
    }

    fn to_point_range(self) -> (range: Self) {
        self
    }
}

impl<T, U> ToPointRange for Box3D<T, U> {
    type Point = Point3D<T, U>;

    /// A box has its two ends already.
    open spec fn has_point_range(self) -> bool {
        true
    }

    /// A box covers the range from its `min` to its `max`.
    open spec fn point_range(self) -> Range<Point3D<T, U>> {
        Range { start: self.min, end: self.max }
    }

    fn to_point_range(self) -> (range: Range<Point3D<T, U>>) {
        Range { start: self.min, end: self.max }
    }
}

} // verus!
