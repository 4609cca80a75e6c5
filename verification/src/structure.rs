//! The structure of shapes: every shape of the plane is made of an x part and a y part, and
//! every shape of space of an x, a y and a z part. A point, a size and a vector have one scalar
//! for each axis; a box and a rectangle have two, one of each of their two members.

use vstd::prelude::*;
use std::marker::PhantomData;
use crate::geometry::Box2D;
use crate::geometry::Box3D;
use crate::geometry::Point2D;
use crate::geometry::Point3D;
use crate::geometry::Rect;
use crate::geometry::Size2D;
use crate::geometry::Vector2D;
use crate::geometry::Vector3D;

verus! {

/// A shape of the plane that can be taken apart into an x part and a y part, and made from them.
pub trait Structure2D: Sized {
    /// What the shape holds for one axis.
    type Item;

    /// The shape with the given parts.
    spec fn spec_from_x_y(x: Self::Item, y: Self::Item) -> Self;

    /// The x part of the shape.
    spec fn spec_x(&self) -> Self::Item;

    /// The y part of the shape.
    spec fn spec_y(&self) -> Self::Item;

    /// Makes the shape with the given parts.
    fn from_x_y(x: Self::Item, y: Self::Item) -> (made: Self)
        ensures
            made == Self::spec_from_x_y(x, y),
            made.spec_x() == x,
            made.spec_y() == y,
    ;

    /// The x part of the shape.
    fn x(&self) -> (part: Self::Item)
        ensures
            part == self.spec_x(),
    ;

    /// The y part of the shape.
    fn y(&self) -> (part: Self::Item)
        ensures
            part == self.spec_y(),
    ;
}

impl<T: Copy, U> Structure2D for Point2D<T, U> {
    type Item = T;

    open spec fn spec_from_x_y(x: T, y: T) -> Self {
        Point2D { x: x, y: y, _unit: PhantomData }
    }

    open spec fn spec_x(&self) -> T {
        self.x
    }

    open spec fn spec_y(&self) -> T {
        self.y
    }

    fn from_x_y(x: T, y: T) -> (made: Self) {
        Self::new(x, y)
    }

    fn x(&self) -> (part: T) {
        self.x
    }

    fn y(&self) -> (part: T) {
        self.y
    }
}

impl<T: Copy, U> Structure2D for Size2D<T, U> {
    type Item = T;

    open spec fn spec_from_x_y(x: T, y: T) -> Self {
        Size2D { width: x, height: y, _unit: PhantomData }
    }

    open spec fn spec_x(&self) -> T {
        self.width
    }

    open spec fn spec_y(&self) -> T {
        self.height
    }

    fn from_x_y(x: T, y: T) -> (made: Self) {
        Self::new(x, y)
    }

    fn x(&self) -> (part: T) {
        self.width
    }

    fn y(&self) -> (part: T) {
        self.height
    }
}

impl<T: Copy, U> Structure2D for Vector2D<T, U> {
    type Item = T;

    open spec fn spec_from_x_y(x: T, y: T) -> Self {
        Vector2D { x: x, y: y, _unit: PhantomData }
    }

    open spec fn spec_x(&self) -> T {
        self.x
    }

    open spec fn spec_y(&self) -> T {
        self.y
    }

    fn from_x_y(x: T, y: T) -> (made: Self) {
        Self::new(x, y)
    }

    fn x(&self) -> (part: T) {
        self.x
    }

    fn y(&self) -> (part: T) {
        self.y
    }
}

impl<T: Copy, U> Structure2D for Box2D<T, U> {
    type Item = (T, T);

    open spec fn spec_from_x_y(x: (T, T), y: (T, T)) -> Self {
        Box2D {
            min: Point2D { x: x.0, y: y.0, _unit: PhantomData },
            max: Point2D { x: x.1, y: y.1, _unit: PhantomData },
        }
    }

    open spec fn spec_x(&self) -> (T, T) {
        (self.min.x, self.max.x)
    }

    open spec fn spec_y(&self) -> (T, T) {
        (self.min.y, self.max.y)
    }

    fn from_x_y(x: (T, T), y: (T, T)) -> (made: Self) {
        Self::new(Point2D::from_x_y(x.0, y.0), Point2D::from_x_y(x.1, y.1))
    }

    fn x(&self) -> (part: (T, T)) {
        (self.min.x(), self.max.x())
    }

    fn y(&self) -> (part: (T, T)) {
        (self.min.y(), self.max.y())
    }
}

impl<T: Copy, U> Structure2D for Rect<T, U> {
    type Item = (T, T);

    open spec fn spec_from_x_y(x: (T, T), y: (T, T)) -> Self {
        Rect {
            origin: Point2D { x: x.0, y: y.0, _unit: PhantomData },
            size: Size2D { width: x.1, height: y.1, _unit: PhantomData },
        }
    }

    open spec fn spec_x(&self) -> (T, T) {
        (self.origin.x, self.size.width)
    }

    open spec fn spec_y(&self) -> (T, T) {
        (self.origin.y, self.size.height)
    }

    fn from_x_y(x: (T, T), y: (T, T)) -> (made: Self) {
        Self::new(Point2D::from_x_y(x.0, y.0), Size2D::from_x_y(x.1, y.1))
    }

    fn x(&self) -> (part: (T, T)) {
        (self.origin.x(), self.size.x())
    }

    fn y(&self) -> (part: (T, T)) {
        (self.origin.y(), self.size.y())
    }
}

/// A shape of space that can be taken apart into an x, a y and a z part, and made from them.
pub trait Structure3D: Sized {
    /// What the shape holds for one axis.
    type Item;

    /// The shape with the given parts.
    spec fn spec_from_x_y_z(x: Self::Item, y: Self::Item, z: Self::Item) -> Self;

    /// The x part of the shape.
    spec fn spec_x(&self) -> Self::Item;

    /// The y part of the shape.
    spec fn spec_y(&self) -> Self::Item;

    /// The z part of the shape.
    spec fn spec_z(&self) -> Self::Item;

    /// Makes the shape with the given parts.
    fn from_x_y_z(x: Self::Item, y: Self::Item, z: Self::Item) -> (made: Self)
        ensures
            made == Self::spec_from_x_y_z(x, y, z),
            made.spec_x() == x,
            made.spec_y() == y,
            made.spec_z() == z,
    ;

    /// The x part of the shape.
    fn x(&self) -> (part: Self::Item)
        ensures
            part == self.spec_x(),
    ;

    /// The y part of the shape.
    fn y(&self) -> (part: Self::Item)
        ensures
            part == self.spec_y(),
    ;

    /// The z part of the shape.
    fn z(&self) -> (part: Self::Item)
        ensures
            part == self.spec_z(),
    ;
}

impl<T: Copy, U> Structure3D for Point3D<T, U> {
    type Item = T;

    open spec fn spec_from_x_y_z(x: T, y: T, z: T) -> Self {
        Point3D { x, y, z, _unit: PhantomData }
    }

    open spec fn spec_x(&self) -> T {
        self.x
    }

    open spec fn spec_y(&self) -> T {
        self.y
    }

    open spec fn spec_z(&self) -> T {
        self.z
    }

    fn from_x_y_z(x: T, y: T, z: T) -> (made: Self) {
        Self::new(x, y, z)
    }

    fn x(&self) -> (part: T) {
        self.x
    }

    fn y(&self) -> (part: T) {
        self.y
    }

    fn z(&self) -> (part: T) {
        self.z
    }
}

impl<T: Copy, U> Structure3D for Vector3D<T, U> {
    type Item = T;

    open spec fn spec_from_x_y_z(x: T, y: T, z: T) -> Self {
        Vector3D { x, y, z, _unit: PhantomData }
    }

    open spec fn spec_x(&self) -> T {
        self.x
    }

    open spec fn spec_y(&self) -> T {
        self.y
    }

    open spec fn spec_z(&self) -> T {
        self.z
    }

    fn from_x_y_z(x: T, y: T, z: T) -> (made: Self) {
        Self::new(x, y, z)
    }

    fn x(&self) -> (part: T) {
        self.x
    }

    fn y(&self) -> (part: T) {
        self.y
    }

    fn z(&self) -> (part: T) {
        self.z
    }
}

impl<T: Copy, U> Structure3D for Box3D<T, U> {
    type Item = (T, T);

    open spec fn spec_from_x_y_z(x: (T, T), y: (T, T), z: (T, T)) -> Self {
        Box3D {
            min: Point3D { x: x.0, y: y.0, z: z.0, _unit: PhantomData },
            max: Point3D { x: x.1, y: y.1, z: z.1, _unit: PhantomData },
        }
    }

    open spec fn spec_x(&self) -> (T, T) {
        (self.min.x, self.max.x)
    }

    open spec fn spec_y(&self) -> (T, T) {
        (self.min.y, self.max.y)
    }

    open spec fn spec_z(&self) -> (T, T) {
        (self.min.z, self.max.z)
    }

    fn from_x_y_z(x: (T, T), y: (T, T), z: (T, T)) -> (made: Self) {
        Self::new(Point3D::from_x_y_z(x.0, y.0, z.0), Point3D::from_x_y_z(x.1, y.1, z.1))
    }

    fn x(&self) -> (part: (T, T)) {
        (self.min.x(), self.max.x())
    }

    fn y(&self) -> (part: (T, T)) {
        (self.min.y(), self.max.y())
    }

    fn z(&self) -> (part: (T, T)) {
        (self.min.z(), self.max.z())
    }
}

} // verus!
