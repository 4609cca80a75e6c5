//! The lazy scan of a range of points of the plane, for code that handles the plane alone.

use vstd::prelude::*;
use std::ops::Range;
use crate::geometry::Point2D;
use crate::grid::grid_2d;
use crate::grid::remaining_2d;
use crate::point_range_iterator::PointRangeIteratorItem;
pub use crate::scalar::PointRangeIteratorPrimitive;

verus! {

/// A lazy scan over a range of points of the plane. It holds the range and a cursor, and
/// nothing else.
pub struct Point2DRangeIterator<T: PointRangeIteratorPrimitive, U> {
    range: Range<Point2D<T, U>>,
    current: Point2D<T, U>,
}

impl<T: PointRangeIteratorPrimitive, U> Point2DRangeIterator<T, U> {
    /// The range that is scanned.
    pub closed spec fn range(self) -> Range<Point2D<T, U>> {
        self.range
    }

    /// The cursor: where the scan stands.
    pub closed spec fn cursor(self) -> Point2D<T, U> {
        self.current
    }

    /// The points that are still to come, in the order in which they come.
    pub open spec fn remaining(self) -> Seq<(int, int)> {
        remaining_2d(
            self.range().start@.0,
            self.range().end@.0,
            self.range().end@.1,
            self.cursor()@.0,
            self.cursor()@.1,
        )
    }

    /// A scan of `range` that stands at its start and has every point of the range to give,
    /// along x first.
    pub fn new(range: Range<Point2D<T, U>>) -> (scan: Self)
        ensures
            scan.range() == range,
            scan.cursor() == range.start,
            scan.remaining() == grid_2d(range.start@.0, range.end@.0, range.start@.1, range.end@.1),
    {
        proof {
            Point2D::lemma_remaining_at_start(range);
        }
        let current = range.start;
        Self { range, current }
    }

    /// Gives the next point of the scan, if one is left, and moves the cursor one step along x
    /// past it. Once nothing is left, nothing is given at this pull nor at any later one. The
    /// range is never changed.
    pub fn next(&mut self) -> (point: Option<Point2D<T, U>>)
        ensures
            final(self).range() == old(self).range(),
            point == old(self).cursor().pulled(old(self).range()),
            final(self).cursor() == old(self).cursor().advanced(old(self).range()),
            old(self).remaining().len() == 0 ==> point is None && final(self).remaining().len()
                == 0,
            old(self).remaining().len() > 0 ==> point is Some
                && point.unwrap()@ == old(self).remaining().first()
                && final(self).remaining() == old(self).remaining().drop_first(),
    {
        self.current.next(&self.range)
    }
}

} // verus!
