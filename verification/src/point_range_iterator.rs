//! The lazy scan of a range of points: a cursor that gives one point at each pull.

use vstd::prelude::*;
use std::marker::PhantomData;
use std::ops::Range;
use crate::geometry::Point2D;
use crate::geometry::Point3D;
use crate::grid::remaining_2d;
use crate::grid::remaining_3d;
use crate::grid::grid_2d;
use crate::grid::grid_3d;
use crate::grid::lemma_remaining_2d_at_start;
use crate::grid::lemma_remaining_2d_emit;
use crate::grid::lemma_remaining_2d_step;
use crate::grid::lemma_remaining_2d_wrap;
use crate::grid::lemma_remaining_3d_at_start;
use crate::grid::lemma_remaining_3d_emit;
use crate::grid::lemma_remaining_3d_step;
use crate::grid::lemma_remaining_3d_wrap_row;
use crate::grid::lemma_remaining_3d_wrap_plane;
pub use crate::scalar::PointRangeIteratorPrimitive;

verus! {

/// A point that can serve as the cursor of a scan over a range of such points.
pub trait PointRangeIteratorItem: Copy + Sized {
    /// The integer coordinates of such a point.
    type Coordinates;

    /// The integer coordinates of this point.
    spec fn coordinates(self) -> Self::Coordinates;

    /// All points of `range`, in scan order.
    spec fn scan(range: Range<Self>) -> Seq<Self::Coordinates>;

    /// The points that a scan of `range` still has to give when its cursor stands at `self`, in
    /// the order in which they come.
    spec fn remaining(self, range: Range<Self>) -> Seq<Self::Coordinates>;

    /// The point that the next pull gives when the cursor stands at `self`: the first of those
    /// that remain, or none where none remains.
    spec fn pulled(self, range: Range<Self>) -> Option<Self>;

    /// Where the cursor stands after the next pull, when it stands at `self` before it.
    spec fn advanced(self, range: Range<Self>) -> Self;

    /// A cursor at the start of a range has the whole scan to give.
    proof fn lemma_remaining_at_start(range: Range<Self>)
        ensures
            range.start.remaining(range) == Self::scan(range),
    ;

    /// A pull gives the first of the points that are left and leaves the others. Where nothing
    /// is left, it gives nothing and leaves nothing.
    proof fn lemma_pull(self, range: Range<Self>)
        ensures
            self.remaining(range).len() == 0 ==> self.pulled(range) is None && self.advanced(
                range,
            ).remaining(range).len() == 0,
            self.remaining(range).len() > 0 ==> self.pulled(range) is Some && self.pulled(
                range,
            ).unwrap().coordinates() == self.remaining(range).first() && self.advanced(
                range,
            ).remaining(range) == self.remaining(range).drop_first(),
    ;

    /// Gives the next point of the scan of `range` and moves the cursor past it. Where nothing
    /// is left, gives nothing, and nothing is left afterwards either.
    fn next(&mut self, range: &Range<Self>) -> (point: Option<Self>)
        ensures
            point == old(self).pulled(*range),
            *final(self) == old(self).advanced(*range),
            old(self).remaining(*range).len() == 0 ==> point is None && final(self).remaining(
                *range,
            ).len() == 0,
            old(self).remaining(*range).len() > 0 ==> point is Some
                && point.unwrap().coordinates() == old(self).remaining(*range).first()
                && final(self).remaining(*range) == old(self).remaining(*range).drop_first(),
    ;
}

impl<T: PointRangeIteratorPrimitive, U> PointRangeIteratorItem for Point2D<T, U> {
    type Coordinates = (int, int);

    open spec fn coordinates(self) -> (int, int) {
        self@
    }

    open spec fn scan(range: Range<Self>) -> Seq<(int, int)> {
        grid_2d(range.start@.0, range.end@.0, range.start@.1, range.end@.1)
    }

    open spec fn remaining(self, range: Range<Self>) -> Seq<(int, int)> {
        remaining_2d(range.start@.0, range.end@.0, range.end@.1, self@.0, self@.1)
    }

    open spec fn pulled(self, range: Range<Self>) -> Option<Self> {
        if self.remaining(range).len() > 0 {
            let first = self.remaining(range).first();
            Some(Point2D { x: T::at(first.0), y: T::at(first.1), _unit: PhantomData })
        } else {
            None
        }
    }

    /// After a point was given, the cursor stands one step along x past it. After the pull that
    /// finds nothing left, the cursor stands at the start of the row at the end of the range,
    /// and there it stays.
    open spec fn advanced(self, range: Range<Self>) -> Self {
        if self.remaining(range).len() > 0 {
            let first = self.remaining(range).first();
            Point2D { x: T::at(first.0 + 1), y: T::at(first.1), _unit: PhantomData }
        } else if self@.1 < range.end@.1 {
            Point2D { x: range.start.x, y: range.end.y, _unit: PhantomData }
        } else {
            self
        }
    }

    proof fn lemma_remaining_at_start(range: Range<Self>) {
        lemma_remaining_2d_at_start(range.start@.0, range.end@.0, range.start@.1, range.end@.1);
    }

    proof fn lemma_pull(self, range: Range<Self>) {
        if self.remaining(range).len() > 0 {
            lemma_remaining_2d_step(
                range.start@.0,
                range.end@.0,
                range.end@.1,
                self@.0,
                self@.1,
            );
            let first = self.remaining(range).first();
            T::lemma_at_position(self.x);
            T::lemma_at_position(range.start.x);
            if first.0 == self@.0 {
                T::lemma_representable_between(self.x, range.end.x, first.0 + 1);
            } else {
                T::lemma_representable_between(range.start.x, range.end.x, first.0 + 1);
            }
            T::lemma_representable_between(self.y, range.end.y, first.1);
            T::lemma_position_at(first.0);
            T::lemma_position_at(first.0 + 1);
            T::lemma_position_at(first.1);
        }
    }

    /// Row by row: a cursor inside its row gives its own point and steps along x; a cursor past
    /// the end of its row moves to the start of the next row first. Past the last row nothing
    /// is given.
    fn next(&mut self, range: &Range<Self>) -> (point: Option<Self>) {
        while self.y.less_than(&range.end.y)
            invariant
                self.remaining(*range) == old(self).remaining(*range),
                *self == *old(self) || (self.x == range.start.x && old(self)@.1 < self@.1
                    <= range.end@.1),
            decreases range.end@.1 - self@.1,
        {
            if self.x.less_than(&range.end.x) {
                let point = *self;
                proof {
                    T::lemma_representable_between(self.x, range.end.x, self@.0 + 1);
                    T::lemma_at_position(self.x);
                    T::lemma_at_position(self.y);
                    lemma_remaining_2d_emit(
                        range.start@.0,
                        range.end@.0,
                        range.end@.1,
                        self@.0,
                        self@.1,
                    );
                }
                self.x = self.x.plus(T::one());
                proof {
                    let rest = self.remaining(*range);
                    assert((seq![point@] + rest).drop_first() =~= rest);
                }
                return Some(point);
            }
            proof {
                T::lemma_representable_between(self.y, range.end.y, self@.1 + 1);
                lemma_remaining_2d_wrap(
                    range.start@.0,
                    range.end@.0,
                    range.end@.1,
                    self@.0,
                    self@.1,
                );
            }
            *self = Point2D::new(range.start.x, self.y.plus(T::one()));
        }
        proof {
            T::lemma_at_position(self.y);
            T::lemma_at_position(range.end.y);
        }
        None
    }
}

impl<T: PointRangeIteratorPrimitive, U> PointRangeIteratorItem for Point3D<T, U> {
    type Coordinates = (int, int, int);

    open spec fn coordinates(self) -> (int, int, int) {
        self@
    }

    open spec fn scan(range: Range<Self>) -> Seq<(int, int, int)> {
        grid_3d(
            range.start@.0,
            range.end@.0,
            range.start@.1,
            range.end@.1,
            range.start@.2,
            range.end@.2,
        )
    }

    open spec fn remaining(self, range: Range<Self>) -> Seq<(int, int, int)> {
        remaining_3d(
            range.start@.0,
            range.end@.0,
            range.start@.1,
            range.end@.1,
            range.end@.2,
            self@.0,
            self@.1,
            self@.2,
        )
    }

    open spec fn pulled(self, range: Range<Self>) -> Option<Self> {
        if self.remaining(range).len() > 0 {
            let first = self.remaining(range).first();
            Some(
                Point3D {
                    x: T::at(first.0),
                    y: T::at(first.1),
                    z: T::at(first.2),
                    _unit: PhantomData,
                },
            )
        } else {
            None
        }
    }

    /// After a point was given, the cursor stands one step along x past it. After the pull that
    /// finds nothing left, the cursor stands at the start of the plane at the end of the range,
    /// and there it stays.
    open spec fn advanced(self, range: Range<Self>) -> Self {
        if self.remaining(range).len() > 0 {
            let first = self.remaining(range).first();
            Point3D {
                x: T::at(first.0 + 1),
                y: T::at(first.1),
                z: T::at(first.2),
                _unit: PhantomData,
            }
        } else if self@.2 < range.end@.2 {
            Point3D { x: range.start.x, y: range.start.y, z: range.end.z, _unit: PhantomData }
        } else {
            self
        }
    }

    proof fn lemma_remaining_at_start(range: Range<Self>) {
        lemma_remaining_3d_at_start(
            range.start@.0,
            range.end@.0,
            range.start@.1,
            range.end@.1,
            range.start@.2,
            range.end@.2,
        );
    }

    proof fn lemma_pull(self, range: Range<Self>) {
        if self.remaining(range).len() > 0 {
            lemma_remaining_3d_step(
                range.start@.0,
                range.end@.0,
                range.start@.1,
                range.end@.1,
                range.end@.2,
                self@.0,
                self@.1,
                self@.2,
            );
            let first = self.remaining(range).first();
            T::lemma_at_position(self.x);
            T::lemma_at_position(range.start.x);
            T::lemma_at_position(range.start.y);
            if first.0 == self@.0 {
                T::lemma_representable_between(self.x, range.end.x, first.0 + 1);
            } else {
                T::lemma_representable_between(range.start.x, range.end.x, first.0 + 1);
            }
            if self@.1 <= first.1 {
                T::lemma_representable_between(self.y, range.end.y, first.1);
            }
            T::lemma_representable_between(self.z, range.end.z, first.2);
            T::lemma_position_at(first.0);
            T::lemma_position_at(first.0 + 1);
            T::lemma_position_at(first.1);
            T::lemma_position_at(first.2);
        }
    }

    /// Plane by plane, and row by row within a plane: a cursor inside its row gives its own
    /// point and steps along x; a cursor past the end of its row moves to the start of the next
    /// row first, and one past the last row of its plane to the start of the next plane. Past
    /// the last plane nothing is given.
    fn next(&mut self, range: &Range<Self>) -> (point: Option<Self>) {
        while self.z.less_than(&range.end.z)
            invariant
                self.remaining(*range) == old(self).remaining(*range),
                *self == *old(self) || (self.x == range.start.x && self.y == range.start.y
                    && old(self)@.2 < self@.2 <= range.end@.2),
            decreases range.end@.2 - self@.2,
        {
            let ghost plane = self@.2;
            while self.y.less_than(&range.end.y)
                invariant
                    self.remaining(*range) == old(self).remaining(*range),
                    self@.2 == plane,
                    old(self)@.2 <= self@.2 < range.end@.2,
                decreases range.end@.1 - self@.1,
            {
                if self.x.less_than(&range.end.x) {
                    let point = *self;
                    proof {
                        T::lemma_representable_between(self.x, range.end.x, self@.0 + 1);
                        T::lemma_at_position(self.x);
                        T::lemma_at_position(self.y);
                        T::lemma_at_position(self.z);
                        lemma_remaining_3d_emit(
                            range.start@.0,
                            range.end@.0,
                            range.start@.1,
                            range.end@.1,
                            range.end@.2,
                            self@.0,
                            self@.1,
                            self@.2,
                        );
                    }
                    self.x = self.x.plus(T::one());
                    proof {
                        let rest = self.remaining(*range);
                        assert((seq![point@] + rest).drop_first() =~= rest);
                    }
                    return Some(point);
                }
                proof {
                    T::lemma_representable_between(self.y, range.end.y, self@.1 + 1);
                    lemma_remaining_3d_wrap_row(
                        range.start@.0,
                        range.end@.0,
                        range.start@.1,
                        range.end@.1,
                        range.end@.2,
                        self@.0,
                        self@.1,
                        self@.2,
                    );
                }
                *self = Point3D::new(range.start.x, self.y.plus(T::one()), self.z);
            }
            proof {
                T::lemma_representable_between(self.z, range.end.z, self@.2 + 1);
                lemma_remaining_3d_wrap_plane(
                    range.start@.0,
                    range.end@.0,
                    range.start@.1,
                    range.end@.1,
                    range.end@.2,
                    self@.0,
                    self@.1,
                    self@.2,
                );
            }
            *self = Point3D::new(range.start.x, range.start.y, self.z.plus(T::one()));
        }
        proof {
            T::lemma_at_position(self.z);
            T::lemma_at_position(range.end.z);
        }
        None
    }
}

/// A lazy scan over a range of points. It holds the range and a cursor, and nothing else.
#[derive(Debug, PartialEq, Eq, Hash)]
pub struct PointRangeIterator<T: PointRangeIteratorItem> {
    range: Range<T>,
    current: T,
}

impl<T: PointRangeIteratorItem> Clone for PointRangeIterator<T> {
    fn clone(&self) -> (copy: Self)
        ensures
            copy == *self,
    {
        PointRangeIterator {
            range: Range { start: self.range.start, end: self.range.end },
            current: self.current,
        }
    }
}

impl<T: PointRangeIteratorItem> PointRangeIterator<T> {
    /// The range that is scanned.
    pub closed spec fn range(self) -> Range<T> {
        self.range
    }

    /// The cursor: where the scan stands.
    pub closed spec fn cursor(self) -> T {
        self.current
    }

    /// The points that are still to come, in the order in which they come.
    pub open spec fn remaining(self) -> Seq<T::Coordinates> {
        self.cursor().remaining(self.range())
    }

    /// A scan of `range` that stands at its start and has every point of the range to give.
    pub fn new(range: Range<T>) -> (scan: Self)
        ensures
            scan.range() == range,
            scan.cursor() == range.start,
            scan.remaining() == T::scan(range),
    {
        proof {
            T::lemma_remaining_at_start(range);
        }
        let current = range.start;
        Self { range, current }
    }

    /// Gives the next point of the scan, if one is left, and moves the cursor past it. Once
    /// nothing is left, nothing is given at this pull nor at any later one. The range is never
    /// changed.
    pub fn next(&mut self) -> (point: Option<T>)
        ensures
            final(self).range() == old(self).range(),
            point == old(self).cursor().pulled(old(self).range()),
            final(self).cursor() == old(self).cursor().advanced(old(self).range()),
            old(self).remaining().len() == 0 ==> point is None && final(self).remaining().len()
                == 0,
            old(self).remaining().len() > 0 ==> point is Some && point.unwrap().coordinates()
                == old(self).remaining().first() && final(self).remaining() == old(
                self
            ).remaining().drop_first(),
    {
        self.current.next(&self.range)
    }

    /// Pulls every point that is left, in order.
    pub fn collect(self) -> (points: Vec<T>)
        ensures
            points.len() == self.remaining().len(),
            forall|i: int|
                0 <= i < points.len() ==> (#[trigger] points[i]).coordinates()
                    == self.remaining()[i],
    {
        let mut scan = self;
        let mut points: Vec<T> = Vec::new();
        loop
            invariant
                scan.range() == self.range(),
                points.len() + scan.remaining().len() == self.remaining().len(),
                forall|i: int|
                    0 <= i < points.len() ==> (#[trigger] points[i]).coordinates()
                        == self.remaining()[i],
                forall|i: int|
                    0 <= i < scan.remaining().len() ==> #[trigger] scan.remaining()[i]
                        == self.remaining()[points.len() + i],
            decreases scan.remaining().len(),
        {
            let ghost before = scan.remaining();
            match scan.next() {
                Some(point) => {
                    points.push(point);
                    proof {
                        assert forall|i: int| 0 <= i < scan.remaining().len() implies #[trigger]
                            scan.remaining()[i] == self.remaining()[points.len() + i] by {
                            assert(scan.remaining()[i] == before[i + 1]);
                        }
                    }
                },
                None => {
                    return points;
                },
            }
        }
    }
}

} // verus!
