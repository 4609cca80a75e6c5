//! Applying a function to a shape axis by axis: once to what the shape holds for x, once to
//! what it holds for y (and once to what it holds for z), making a shape from the results.
//! Up to three shapes can be mapped together; the function then gets what each holds for the
//! axis, as a tuple.

use vstd::prelude::*;
use crate::structure::Structure2D;
use crate::structure::Structure3D;

verus! {

/// Shapes of the plane, one or up to three together, that can be mapped axis by axis.
pub trait Map2D: Sized {
    /// What the function is given for one axis.
    type Item;

    /// What the function is given for x.
    spec fn x_item(self) -> Self::Item;

    /// What the function is given for y.
    spec fn y_item(self) -> Self::Item;

    /// The shape whose x part is what `f` gives for x, and whose y part is what `f` gives for y.
    fn map<RI: Copy, R: Structure2D<Item = RI>, F: Fn(Self::Item) -> RI>(self, f: F) -> (mapped:
        R)
        requires
            call_requires(f, (self.x_item(),)),
            call_requires(f, (self.y_item(),)),
        ensures
            call_ensures(f, (self.x_item(),), mapped.spec_x()),
            call_ensures(f, (self.y_item(),), mapped.spec_y()),
            mapped == R::spec_from_x_y(mapped.spec_x(), mapped.spec_y()),
    ;
}

/// A single shape: the function is given what the shape holds for the axis.
impl<T: Structure2D> Map2D for T {
    type Item = <Self as Structure2D>::Item;

    open spec fn x_item(self) -> Self::Item {
        self.spec_x()
    }

    open spec fn y_item(self) -> Self::Item {
        self.spec_y()
    }

    fn map<RI: Copy, R: Structure2D<Item = RI>, F: Fn(Self::Item) -> RI>(self, f: F) -> (mapped:
        R) {
        R::from_x_y(f(self.x()), f(self.y()))
    }
}

/// A shape alone in a tuple: the function is given a tuple of one.
impl<T: Structure2D> Map2D for (T,) {
    type Item = (<T as Structure2D>::Item,);

    open spec fn x_item(self) -> Self::Item {
        (self.0.spec_x(),)
    }

    open spec fn y_item(self) -> Self::Item {
        (self.0.spec_y(),)
    }

    fn map<RI: Copy, R: Structure2D<Item = RI>, F: Fn(Self::Item) -> RI>(self, f: F) -> (mapped:
        R) {
        R::from_x_y(f((self.0.x(),)), f((self.0.y(),)))
    }
}

/// Two shapes: the function is given what each holds for the axis, as a pair.
impl<T0: Structure2D, T1: Structure2D> Map2D for (T0, T1) {
    type Item = (<T0 as Structure2D>::Item, <T1 as Structure2D>::Item);

    open spec fn x_item(self) -> Self::Item {
        (self.0.spec_x(), self.1.spec_x())
    }

    open spec fn y_item(self) -> Self::Item {
        (self.0.spec_y(), self.1.spec_y())
    }

    fn map<RI: Copy, R: Structure2D<Item = RI>, F: Fn(Self::Item) -> RI>(self, f: F) -> (mapped:
        R) {
        R::from_x_y(f((self.0.x(), self.1.x())), f((self.0.y(), self.1.y())))
    }
}

/// Three shapes: the function is given what each holds for the axis, as a triple.
impl<T0: Structure2D, T1: Structure2D, T2: Structure2D> Map2D for (T0, T1, T2) {
    type Item = (
        <T0 as Structure2D>::Item,
        <T1 as Structure2D>::Item,
        <T2 as Structure2D>::Item,
    );

    open spec fn x_item(self) -> Self::Item {
        (self.0.spec_x(), self.1.spec_x(), self.2.spec_x())
    }

    open spec fn y_item(self) -> Self::Item {
        (self.0.spec_y(), self.1.spec_y(), self.2.spec_y())
    }

    fn map<RI: Copy, R: Structure2D<Item = RI>, F: Fn(Self::Item) -> RI>(self, f: F) -> (mapped:
        R) {
        R::from_x_y(
            f((self.0.x(), self.1.x(), self.2.x())),
            f((self.0.y(), self.1.y(), self.2.y())),
        )
    }
}

/// Shapes of space, one or up to three together, that can be mapped axis by axis.
pub trait Map3D: Sized {
    /// What the function is given for one axis.
    type Item;

    /// What the function is given for x.
    spec fn x_item(self) -> Self::Item;

    /// What the function is given for y.
    spec fn y_item(self) -> Self::Item;

    /// What the function is given for z.
    spec fn z_item(self) -> Self::Item;

    /// The shape whose x part is what `f` gives for x, whose y part is what `f` gives for y, and
    /// whose z part is what `f` gives for z.
    fn map<RI: Copy, R: Structure3D<Item = RI>, F: Fn(Self::Item) -> RI>(self, f: F) -> (mapped:
        R)
        requires
            call_requires(f, (self.x_item(),)),
            call_requires(f, (self.y_item(),)),
            call_requires(f, (self.z_item(),)),
        ensures
            call_ensures(f, (self.x_item(),), mapped.spec_x()),
            call_ensures(f, (self.y_item(),), mapped.spec_y()),
            call_ensures(f, (self.z_item(),), mapped.spec_z()),
            mapped == R::spec_from_x_y_z(mapped.spec_x(), mapped.spec_y(), mapped.spec_z()),
    ;
}

/// A single shape: the function is given what the shape holds for the axis.
impl<T: Structure3D> Map3D for T {
    type Item = <Self as Structure3D>::Item;

    open spec fn x_item(self) -> Self::Item {
        self.spec_x()
    }

    open spec fn y_item(self) -> Self::Item {
        self.spec_y()
    }

    open spec fn z_item(self) -> Self::Item {
        self.spec_z()
    }

    fn map<RI: Copy, R: Structure3D<Item = RI>, F: Fn(Self::Item) -> RI>(self, f: F) -> (mapped:
        R) {
        R::from_x_y_z(f(self.x()), f(self.y()), f(self.z()))
    }
}

/// A shape alone in a tuple: the function is given a tuple of one.
impl<T: Structure3D> Map3D for (T,) {
    type Item = (<T as Structure3D>::Item,);

    open spec fn x_item(self) -> Self::Item {
        (self.0.spec_x(),)
    }

    open spec fn y_item(self) -> Self::Item {
        (self.0.spec_y(),)
    }

    open spec fn z_item(self) -> Self::Item {
        (self.0.spec_z(),)
    }

    fn map<RI: Copy, R: Structure3D<Item = RI>, F: Fn(Self::Item) -> RI>(self, f: F) -> (mapped:
        R) {
        R::from_x_y_z(f((self.0.x(),)), f((self.0.y(),)), f((self.0.z(),)))
    }
}

/// Two shapes: the function is given what each holds for the axis, as a pair.
impl<T0: Structure3D, T1: Structure3D> Map3D for (T0, T1) {
    type Item = (<T0 as Structure3D>::Item, <T1 as Structure3D>::Item);

    open spec fn x_item(self) -> Self::Item {
        (self.0.spec_x(), self.1.spec_x())
    }

    open spec fn y_item(self) -> Self::Item {
        (self.0.spec_y(), self.1.spec_y())
    }

    open spec fn z_item(self) -> Self::Item {
        (self.0.spec_z(), self.1.spec_z())
    }

    fn map<RI: Copy, R: Structure3D<Item = RI>, F: Fn(Self::Item) -> RI>(self, f: F) -> (mapped:
        R) {
        R::from_x_y_z(
            f((self.0.x(), self.1.x())),
            f((self.0.y(), self.1.y())),
            f((self.0.z(), self.1.z())),
        )
    }
}

/// Three shapes: the function is given what each holds for the axis, as a triple.
impl<T0: Structure3D, T1: Structure3D, T2: Structure3D> Map3D for (T0, T1, T2) {
    type Item = (
        <T0 as Structure3D>::Item,
        <T1 as Structure3D>::Item,
        <T2 as Structure3D>::Item,
    );

    open spec fn x_item(self) -> Self::Item {
        (self.0.spec_x(), self.1.spec_x(), self.2.spec_x())
    }

    open spec fn y_item(self) -> Self::Item {
        (self.0.spec_y(), self.1.spec_y(), self.2.spec_y())
    }

    open spec fn z_item(self) -> Self::Item {
        (self.0.spec_z(), self.1.spec_z(), self.2.spec_z())
    }

    fn map<RI: Copy, R: Structure3D<Item = RI>, F: Fn(Self::Item) -> RI>(self, f: F) -> (mapped:
        R) {
        R::from_x_y_z(
            f((self.0.x(), self.1.x(), self.2.x())),
            f((self.0.y(), self.1.y(), self.2.y())),
            f((self.0.z(), self.1.z(), self.2.z())),
        )
    }
}

} // verus!
