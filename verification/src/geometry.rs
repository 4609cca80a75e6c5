//! The geometric shapes that ranges are made from: points, sizes, vectors, rectangles and boxes,
//! each tagged with the coordinate space it lives in.
//!
//! The tag `U` is a marker type: it holds no data and only keeps shapes of different coordinate
//! spaces apart at compile time.

use vstd::prelude::*;
use std::marker::PhantomData;
use std::ops::Range;
use crate::scalar::PointRangeIteratorPrimitive;

verus! {

/// A point of the plane, in the coordinate space `U`.
#[derive(Debug, PartialEq, Eq, Hash)]
pub struct Point2D<T, U> {
    pub x: T,
    pub y: T,
    pub _unit: PhantomData<U>,
}

impl<T: Copy, U> Clone for Point2D<T, U> {
    fn clone(&self) -> (copy: Self)
        ensures
            copy == *self,
    {
        *self
    }
}

impl<T: Copy, U> Copy for Point2D<T, U> {

}

impl<T, U> Point2D<T, U> {
    /// The point with the given coordinates.
    pub fn new(x: T, y: T) -> (point: Self)
        ensures
            point.x == x,
            point.y == y,
    {
        Point2D { x, y, _unit: PhantomData }
    }
}

impl<T: PointRangeIteratorPrimitive, U> View for Point2D<T, U> {
    type V = (int, int);

    /// The integer coordinates of the point.
    open spec fn view(&self) -> (int, int) {
        (self.x.position(), self.y.position())
    }
}

/// A point of space, in the coordinate space `U`.
#[derive(Debug, PartialEq, Eq, Hash)]
pub struct Point3D<T, U> {
    pub x: T,
    pub y: T,
    pub z: T,
    pub _unit: PhantomData<U>,
}

impl<T: Copy, U> Clone for Point3D<T, U> {
    fn clone(&self) -> (copy: Self)
        ensures
            copy == *self,
    {
        *self
    }
}

impl<T: Copy, U> Copy for Point3D<T, U> {

}

impl<T, U> Point3D<T, U> {
    /// The point with the given coordinates.
    pub fn new(x: T, y: T, z: T) -> (point: Self)
        ensures
            point.x == x,
            point.y == y,
            point.z == z,
    {
        Point3D { x, y, z, _unit: PhantomData }
    }
}

impl<T: PointRangeIteratorPrimitive, U> View for Point3D<T, U> {
    type V = (int, int, int);

    /// The integer coordinates of the point.
    open spec fn view(&self) -> (int, int, int) {
        (self.x.position(), self.y.position(), self.z.position())
    }
}

/// The size of a rectangle, in the coordinate space `U`.
#[derive(Debug, PartialEq, Eq, Hash)]
pub struct Size2D<T, U> {
    pub width: T,
    pub height: T,
    pub _unit: PhantomData<U>,
}

impl<T: Copy, U> Clone for Size2D<T, U> {
    fn clone(&self) -> (copy: Self)
        ensures
            copy == *self,
    {
        *self
    }
}

impl<T: Copy, U> Copy for Size2D<T, U> {

}

impl<T, U> Size2D<T, U> {
    /// The size with the given width and height.
    pub fn new(width: T, height: T) -> (made: Self)
        ensures
            made.width == width,
            made.height == height,
    {
        Size2D { width, height, _unit: PhantomData }
    }
}

/// A displacement in the plane, in the coordinate space `U`.
#[derive(Debug, PartialEq, Eq, Hash)]
pub struct Vector2D<T, U> {
    pub x: T,
    pub y: T,
    pub _unit: PhantomData<U>,
}

impl<T: Copy, U> Clone for Vector2D<T, U> {
    fn clone(&self) -> (copy: Self)
        ensures
            copy == *self,
    {
        *self
    }
}

impl<T: Copy, U> Copy for Vector2D<T, U> {

}

impl<T, U> Vector2D<T, U> {
    /// The vector with the given components.
    pub fn new(x: T, y: T) -> (made: Self)
        ensures
            made.x == x,
            made.y == y,
    {
        Vector2D { x, y, _unit: PhantomData }
    }
}

/// A displacement in space, in the coordinate space `U`.
#[derive(Debug, PartialEq, Eq, Hash)]
pub struct Vector3D<T, U> {
    pub x: T,
    pub y: T,
    pub z: T,
    pub _unit: PhantomData<U>,
}

impl<T: Copy, U> Clone for Vector3D<T, U> {
    fn clone(&self) -> (copy: Self)
        ensures
            copy == *self,
    {
        *self
    }
}

impl<T: Copy, U> Copy for Vector3D<T, U> {

}

impl<T, U> Vector3D<T, U> {
    /// The vector with the given components.
    pub fn new(x: T, y: T, z: T) -> (made: Self)
        ensures
            made.x == x,
            made.y == y,
            made.z == z,
    {
        Vector3D { x, y, z, _unit: PhantomData }
    }
}

/// A rectangle given by its origin and its size. It covers the points from the origin up to, and
/// without, the origin moved by the size.
#[derive(Debug, PartialEq, Eq, Hash)]
pub struct Rect<T, U> {
    pub origin: Point2D<T, U>,
    pub size: Size2D<T, U>,
}

impl<T: Copy, U> Clone for Rect<T, U> {
    fn clone(&self) -> (copy: Self)
        ensures
            copy == *self,
    {
        *self
    }
}

impl<T: Copy, U> Copy for Rect<T, U> {

}

impl<T, U> Rect<T, U> {
    /// The rectangle with the given origin and size.
    pub fn new(origin: Point2D<T, U>, size: Size2D<T, U>) -> (made: Self)
        ensures
            made.origin == origin,
            made.size == size,
    {
        Rect { origin, size }
    }
}

/// An axis-aligned box of the plane given by its two corners. It covers the points from `min` up
/// to, and without, `max`. The corners are taken as given: they are not put in order.
#[derive(Debug, PartialEq, Eq, Hash)]
pub struct Box2D<T, U> {
    pub min: Point2D<T, U>,
    pub max: Point2D<T, U>,
}

impl<T: Copy, U> Clone for Box2D<T, U> {
    fn clone(&self) -> (copy: Self)
        ensures
            copy == *self,
    {
        *self
    }
}

impl<T: Copy, U> Copy for Box2D<T, U> {

}

impl<T, U> Box2D<T, U> {
    /// The box with the given corners.
    pub fn new(min: Point2D<T, U>, max: Point2D<T, U>) -> (made: Self)
        ensures
            made.min == min,
            made.max == max,
    {
        Box2D { min, max }
    }
}

/// An axis-aligned box of space given by its two corners. It covers the points from `min` up to,
/// and without, `max`. The corners are taken as given: they are not put in order.
#[derive(Debug, PartialEq, Eq, Hash)]
pub struct Box3D<T, U> {
    pub min: Point3D<T, U>,
    pub max: Point3D<T, U>,
}

impl<T: Copy, U> Clone for Box3D<T, U> {
    fn clone(&self) -> (copy: Self)
        ensures
            copy == *self,
    {
        *self
    }
}

impl<T: Copy, U> Copy for Box3D<T, U> {

}

impl<T, U> Box3D<T, U> {
    /// The box with the given corners.
    pub fn new(min: Point3D<T, U>, max: Point3D<T, U>) -> (made: Self)
        ensures
            made.min == min,
            made.max == max,
    {
        Box3D { min, max }
    }
}

/// A half-open range of points of the plane: from its start up to, and without, its end on each
/// axis.
pub type Point2DRange<T, U> = Range<Point2D<T, U>>;

/// A half-open range of points of space: from its start up to, and without, its end on each
/// axis.
pub type Point3DRange<T, U> = Range<Point3D<T, U>>;

impl<T: PointRangeIteratorPrimitive, U> Point2D<T, U> {
    /// Whether the point moved by `size` has coordinates that the scalar type can hold.
    pub open spec fn can_add_size(self, size: Size2D<T, U>) -> bool {
        T::representable(self.x.position() + size.width.position()) && T::representable(
            self.y.position() + size.height.position(),
        )
    }

    /// The point moved by `size`: the width is added to x and the height to y.
    pub open spec fn spec_add_size(self, size: Size2D<T, U>) -> Self {
        Point2D {
            x: T::at(self.x.position() + size.width.position()),
            y: T::at(self.y.position() + size.height.position()),
            _unit: PhantomData,
        }
    }

    /// The point moved by `size`.
    pub fn add_size(self, size: Size2D<T, U>) -> (moved: Self)
        requires
            self.can_add_size(size),
        ensures
            moved == self.spec_add_size(size),
            moved@ == (self@.0 + size.width.position(), self@.1 + size.height.position()),
    {
        Point2D::new(self.x.plus(size.width), self.y.plus(size.height))
    }
}

} // verus!
