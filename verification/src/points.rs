//! The points of a shape: normalization and scan in one call.

use vstd::prelude::*;
use crate::point_range_iterator::PointRangeIterator;
use crate::point_range_iterator::PointRangeIteratorItem;
use crate::to_point_range::ToPointRange;

verus! {

/// A shape whose points can be scanned.
pub trait Points: Sized {
    /// The scan that gives the points.
    type Iter;

    /// Whether the scalar type can hold both ends of the range that the shape covers.
    spec fn has_points(self) -> bool;

    /// Whether `scan` is a scan of the range that the shape covers, standing at its start.
    spec fn scanned_by(self, scan: Self::Iter) -> bool;

    /// A scan of the range that the shape covers, standing at its start.
    fn points(self) -> (scan: Self::Iter)
        requires
            self.has_points(),
        ensures
            self.scanned_by(scan),
    ;
}

impl<T: ToPointRange> Points for T where T::Point: PointRangeIteratorItem {
    type Iter = PointRangeIterator<T::Point>;

    open spec fn has_points(self) -> bool {
        self.has_point_range()
    }

    open spec fn scanned_by(self, scan: PointRangeIterator<T::Point>) -> bool {
        &&& scan.range() == self.point_range()
        &&& scan.cursor() == self.point_range().start
        &&& scan.remaining() == <T::Point as PointRangeIteratorItem>::scan(self.point_range())
    }

    fn points(self) -> (scan: PointRangeIterator<T::Point>) {
        PointRangeIterator::new(self.to_point_range())
    }
}

} // verus!
