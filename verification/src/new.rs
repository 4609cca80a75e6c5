//! Makers of the shapes, one plain function for each.

use vstd::prelude::*;
use std::marker::PhantomData;
use crate::geometry::Box2D;
use crate::geometry::Box3D;
use crate::geometry::Point2D;
use crate::geometry::Point3D;
use crate::geometry::Rect;
use crate::geometry::Size2D;
use crate::geometry::Vector2D;
use crate::geometry::Vector3D;

verus! {

/// The point of the plane with the given coordinates.
pub fn point2d<T, U>(x: T, y: T) -> (point: Point2D<T, U>)
    ensures
        point == (Point2D::<T, U> { x, y, _unit: PhantomData }),
{
    Point2D { x, y, _unit: PhantomData }
}

/// The size with the given width and height.
pub fn size2d<T, U>(width: T, height: T) -> (size: Size2D<T, U>)
    ensures
        size == (Size2D::<T, U> { width, height, _unit: PhantomData }),
{
    Size2D { width, height, _unit: PhantomData }
}

/// The vector of the plane with the given components.
pub fn vector2d<T, U>(x: T, y: T) -> (vector: Vector2D<T, U>)
    ensures
        vector == (Vector2D::<T, U> { x, y, _unit: PhantomData }),
{
    Vector2D { x, y, _unit: PhantomData }
}

/// The box of the plane with the given corners, which are taken as they are given.
pub fn box2d<T, U>(min: Point2D<T, U>, max: Point2D<T, U>) -> (bounds: Box2D<T, U>)
    ensures
        bounds == (Box2D::<T, U> { min, max }),
{
    Box2D { min, max }
}

/// The rectangle with the given origin and size.
pub fn rect<T, U>(origin: Point2D<T, U>, size: Size2D<T, U>) -> (rectangle: Rect<T, U>)
    ensures
        rectangle == (Rect::<T, U> { origin, size }),
{
    Rect { origin, size }
}

/// The point of space with the given coordinates.
pub fn point3d<T, U>(x: T, y: T, z: T) -> (point: Point3D<T, U>)
    ensures
        point == (Point3D::<T, U> { x, y, z, _unit: PhantomData }),
{
    Point3D { x, y, z, _unit: PhantomData }
}

/// The vector of space with the given components.
pub fn vector3d<T, U>(x: T, y: T, z: T) -> (vector: Vector3D<T, U>)
    ensures
        vector == (Vector3D::<T, U> { x, y, z, _unit: PhantomData }),
{
    Vector3D { x, y, z, _unit: PhantomData }
}

/// The box of space with the given corners, which are taken as they are given.
pub fn box3d<T, U>(min: Point3D<T, U>, max: Point3D<T, U>) -> (bounds: Box3D<T, U>)
    ensures
        bounds == (Box3D::<T, U> { min, max }),
{
    Box3D { min, max }
}

} // verus!
