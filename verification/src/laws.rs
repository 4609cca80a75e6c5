//! What holds of every scan, whatever the range.
//!
//! A scan made for a range has the sequence `scan(range)` to give, and each pull takes the
//! first point off what is left. The statements here say what that sequence is.

use vstd::prelude::*;
use std::ops::Range;
use crate::geometry::Box2D;
use crate::geometry::Box3D;
use crate::geometry::Point2D;
use crate::geometry::Point3D;
use crate::geometry::Rect;
use crate::grid::extent;
use crate::grid::index_2d;
use crate::grid::index_3d;
use crate::grid::precedes_2d;
use crate::grid::precedes_3d;
use crate::grid::lemma_grid_2d_complete;
use crate::grid::lemma_grid_2d_empty;
use crate::grid::lemma_grid_2d_inside;
use crate::grid::lemma_grid_2d_no_duplicates;
use crate::grid::lemma_grid_2d_ordered;
use crate::grid::lemma_grid_3d_complete;
use crate::grid::lemma_grid_3d_empty;
use crate::grid::lemma_grid_3d_inside;
use crate::grid::lemma_grid_3d_no_duplicates;
use crate::grid::lemma_grid_3d_ordered;
use crate::point_range_iterator::PointRangeIterator;
use crate::point_range_iterator::PointRangeIteratorItem;
use crate::points::Points;
use crate::scalar::PointRangeIteratorPrimitive;
use crate::to_point_range::ToPointRange;

verus! {

/// Whether the point `p` lies inside the half-open plane range `range`.
pub open spec fn inside_2d<T: PointRangeIteratorPrimitive, U>(
    range: Range<Point2D<T, U>>,
    p: (int, int),
) -> bool {
    range.start@.0 <= p.0 < range.end@.0 && range.start@.1 <= p.1 < range.end@.1
}

/// Whether the point `p` lies inside the half-open space range `range`.
pub open spec fn inside_3d<T: PointRangeIteratorPrimitive, U>(
    range: Range<Point3D<T, U>>,
    p: (int, int, int),
) -> bool {
    range.start@.0 <= p.0 < range.end@.0 && range.start@.1 <= p.1 < range.end@.1 && range.start@.2
        <= p.2 < range.end@.2
}

/// The scan of a plane range gives exactly the points of the range: as many as the product of
/// the two extents, each inside the range, every point of the range at its index, none twice,
/// and along x first.
pub proof fn lemma_scan_2d_enumerates_range<T: PointRangeIteratorPrimitive, U>(
    range: Range<Point2D<T, U>>,
)
    ensures
        Point2D::scan(range).len() == extent(range.start@.0, range.end@.0) * extent(
            range.start@.1,
            range.end@.1,
        ),
        range.start@.0 < range.end@.0 && range.start@.1 < range.end@.1 ==> Point2D::scan(
            range,
        ).len() == (range.end@.0 - range.start@.0) * (range.end@.1 - range.start@.1),
        forall|i: int|
            0 <= i < Point2D::scan(range).len() ==> inside_2d(
                range,
                #[trigger] Point2D::scan(range)[i],
            ),
        forall|p: Point2D<T, U>| #[trigger]
            inside_2d(range, p@) ==> {
                let i = index_2d(range.start@.0, range.end@.0, range.start@.1, p@.0, p@.1);
                0 <= i < Point2D::scan(range).len() && Point2D::scan(range)[i] == p@
            },
        forall|i: int, j: int|
            0 <= i < j < Point2D::scan(range).len() ==> precedes_2d(
                #[trigger] Point2D::scan(range)[i],
                #[trigger] Point2D::scan(range)[j],
            ),
        Point2D::scan(range).no_duplicates(),
{
    let x0 = range.start@.0;
    let x1 = range.end@.0;
    let y0 = range.start@.1;
    let y1 = range.end@.1;
    lemma_grid_2d_inside(x0, x1, y0, y1);
    lemma_grid_2d_no_duplicates(x0, x1, y0, y1);
    assert forall|p: Point2D<T, U>| #[trigger] inside_2d(range, p@) implies {
        let i = index_2d(x0, x1, y0, p@.0, p@.1);
        0 <= i < Point2D::scan(range).len() && Point2D::scan(range)[i] == p@
    } by {
        lemma_grid_2d_complete(x0, x1, y0, y1, p@.0, p@.1);
    }
    assert forall|i: int, j: int| 0 <= i < j < Point2D::scan(range).len() implies precedes_2d(
        #[trigger] Point2D::scan(range)[i],
        #[trigger] Point2D::scan(range)[j],
    ) by {
        lemma_grid_2d_ordered(x0, x1, y0, y1, i, j);
    }
}

/// The scan of a space range gives exactly the points of the range: as many as the product of
/// the three extents, each inside the range, every point of the range at its index, none twice,
/// and along x first, then y, then z.
pub proof fn lemma_scan_3d_enumerates_range<T: PointRangeIteratorPrimitive, U>(
    range: Range<Point3D<T, U>>,
)
    ensures
        Point3D::scan(range).len() == extent(range.start@.0, range.end@.0) * extent(
            range.start@.1,
            range.end@.1,
        ) * extent(range.start@.2, range.end@.2),
        range.start@.0 < range.end@.0 && range.start@.1 < range.end@.1 && range.start@.2
            < range.end@.2 ==> Point3D::scan(range).len() == (range.end@.0 - range.start@.0) * (
        range.end@.1 - range.start@.1) * (range.end@.2 - range.start@.2),
        forall|i: int|
            0 <= i < Point3D::scan(range).len() ==> inside_3d(
                range,
                #[trigger] Point3D::scan(range)[i],
            ),
        forall|p: Point3D<T, U>| #[trigger]
            inside_3d(range, p@) ==> {
                let i = index_3d(
                    range.start@.0,
                    range.end@.0,
                    range.start@.1,
                    range.end@.1,
                    range.start@.2,
                    p@.0,
                    p@.1,
                    p@.2,
                );
                0 <= i < Point3D::scan(range).len() && Point3D::scan(range)[i] == p@
            },
        forall|i: int, j: int|
            0 <= i < j < Point3D::scan(range).len() ==> precedes_3d(
                #[trigger] Point3D::scan(range)[i],
                #[trigger] Point3D::scan(range)[j],
            ),
        Point3D::scan(range).no_duplicates(),
{
    let x0 = range.start@.0;
    let x1 = range.end@.0;
    let y0 = range.start@.1;
    let y1 = range.end@.1;
    let z0 = range.start@.2;
    let z1 = range.end@.2;
    lemma_grid_3d_inside(x0, x1, y0, y1, z0, z1);
    lemma_grid_3d_no_duplicates(x0, x1, y0, y1, z0, z1);
    assert forall|p: Point3D<T, U>| #[trigger] inside_3d(range, p@) implies {
        let i = index_3d(x0, x1, y0, y1, z0, p@.0, p@.1, p@.2);
        0 <= i < Point3D::scan(range).len() && Point3D::scan(range)[i] == p@
    } by {
        lemma_grid_3d_complete(x0, x1, y0, y1, z0, z1, p@.0, p@.1, p@.2);
    }
    assert forall|i: int, j: int| 0 <= i < j < Point3D::scan(range).len() implies precedes_3d(
        #[trigger] Point3D::scan(range)[i],
        #[trigger] Point3D::scan(range)[j],
    ) by {
        lemma_grid_3d_ordered(x0, x1, y0, y1, z0, z1, i, j);
    }
}

/// A plane range whose start is not below its end along x or along y has no point to give, so
/// that the first pull of its scan gives nothing.
pub proof fn lemma_scan_2d_empty<T: PointRangeIteratorPrimitive, U>(range: Range<Point2D<T, U>>)
    requires
        range.start@.0 >= range.end@.0 || range.start@.1 >= range.end@.1,
    ensures
        Point2D::scan(range) == Seq::<(int, int)>::empty(),
        range.start.remaining(range).len() == 0,
{
    lemma_grid_2d_empty(range.start@.0, range.end@.0, range.start@.1, range.end@.1);
    Point2D::lemma_remaining_at_start(range);
}

/// A space range whose start is not below its end along some axis has no point to give, so that
/// the first pull of its scan gives nothing.
pub proof fn lemma_scan_3d_empty<T: PointRangeIteratorPrimitive, U>(range: Range<Point3D<T, U>>)
    requires
        range.start@.0 >= range.end@.0 || range.start@.1 >= range.end@.1 || range.start@.2
            >= range.end@.2,
    ensures
        Point3D::scan(range) == Seq::<(int, int, int)>::empty(),
        range.start.remaining(range).len() == 0,
{
    lemma_grid_3d_empty(
        range.start@.0,
        range.end@.0,
        range.start@.1,
        range.end@.1,
        range.start@.2,
        range.end@.2,
    );
    Point3D::lemma_remaining_at_start(range);
}

/// A rectangle is scanned as the range from its origin to its origin moved by its size: the two
/// scans are scans of the same range and have the same points to give.
pub proof fn lemma_rect_scans_as_range<T: PointRangeIteratorPrimitive, U>(
    rect: Rect<T, U>,
    range: Range<Point2D<T, U>>,
    of_rect: PointRangeIterator<Point2D<T, U>>,
    of_range: PointRangeIterator<Point2D<T, U>>,
)
    requires
        rect.has_points(),
        range.start == rect.origin,
        range.end@ == (
            rect.origin@.0 + rect.size.width.position(),
            rect.origin@.1 + rect.size.height.position(),
        ),
        rect.scanned_by(of_rect),
        range.scanned_by(of_range),
    ensures
        rect.point_range() == range,
        of_rect.range() == of_range.range(),
        of_rect.cursor() == of_range.cursor(),
        of_rect.remaining() == of_range.remaining(),
{
    T::lemma_at_position(range.end.x);
    T::lemma_at_position(range.end.y);
}

/// A box of the plane is scanned as the range from its `min` to its `max`: the two scans are
/// scans of the same range and have the same points to give.
pub proof fn lemma_box2d_scans_as_range<T: PointRangeIteratorPrimitive, U>(
    bounds: Box2D<T, U>,
    range: Range<Point2D<T, U>>,
    of_box: PointRangeIterator<Point2D<T, U>>,
    of_range: PointRangeIterator<Point2D<T, U>>,
)
    requires
        range.start == bounds.min,
        range.end == bounds.max,
        bounds.scanned_by(of_box),
        range.scanned_by(of_range),
    ensures
        bounds.point_range() == range,
        of_box.range() == of_range.range(),
        of_box.cursor() == of_range.cursor(),
        of_box.remaining() == of_range.remaining(),
{
}

/// A box of space is scanned as the range from its `min` to its `max`: the two scans are scans
/// of the same range and have the same points to give.
pub proof fn lemma_box3d_scans_as_range<T: PointRangeIteratorPrimitive, U>(
    bounds: Box3D<T, U>,
    range: Range<Point3D<T, U>>,
    of_box: PointRangeIterator<Point3D<T, U>>,
    of_range: PointRangeIterator<Point3D<T, U>>,
)
    requires
        range.start == bounds.min,
        range.end == bounds.max,
        bounds.scanned_by(of_box),
        range.scanned_by(of_range),
    ensures
        bounds.point_range() == range,
        of_box.range() == of_range.range(),
        of_box.cursor() == of_range.cursor(),
        of_box.remaining() == of_range.remaining(),
{
}

/// Where the cursor stands after `n` pulls, when it stands at `cursor` before them.
pub open spec fn after_pulls<P: PointRangeIteratorItem>(cursor: P, range: Range<P>, n: nat) -> P
    decreases n,
{
    if n == 0 {
        cursor
    } else {
        after_pulls(cursor, range, (n - 1) as nat).advanced(range)
    }
}

/// A scan gives the points of its range in scan order: after `i` pulls from the start, what is
/// left is the scan without its first `i` points, so that the next pull gives the point at
/// index `i`. After as many pulls as the range has points, nothing is left.
pub proof fn lemma_pulls_give_scan<P: PointRangeIteratorItem>(range: Range<P>, i: nat)
    ensures
        i <= P::scan(range).len() ==> after_pulls(range.start, range, i).remaining(range)
            == P::scan(range).skip(i as int),
        i < P::scan(range).len() ==> after_pulls(range.start, range, i).pulled(range) is Some
            && after_pulls(range.start, range, i).pulled(range).unwrap().coordinates()
            == P::scan(range)[i as int],
        i >= P::scan(range).len() ==> after_pulls(range.start, range, i).pulled(range) is None
            && after_pulls(range.start, range, i).remaining(range).len() == 0,
    decreases i,
{
    let scan = P::scan(range);
    if i == 0 {
        P::lemma_remaining_at_start(range);
        assert(scan.skip(0) =~= scan);
    } else {
        let before = after_pulls(range.start, range, (i - 1) as nat);
        lemma_pulls_give_scan(range, (i - 1) as nat);
        before.lemma_pull(range);
        if i <= scan.len() {
            assert(scan.skip(i - 1).drop_first() =~= scan.skip(i as int));
        }
    }
    after_pulls(range.start, range, i).lemma_pull(range);
}

/// A scan that has nothing left stays so: after any number of further pulls nothing is left,
/// and the next pull gives nothing.
pub proof fn lemma_exhausted_stays_exhausted<P: PointRangeIteratorItem>(
    cursor: P,
    range: Range<P>,
    n: nat,
)
    requires
        cursor.remaining(range).len() == 0,
    ensures
        after_pulls(cursor, range, n).remaining(range).len() == 0,
        after_pulls(cursor, range, n).pulled(range) is None,
    decreases n,
{
    if n > 0 {
        lemma_exhausted_stays_exhausted(cursor, range, (n - 1) as nat);
        after_pulls(cursor, range, (n - 1) as nat).lemma_pull(range);
    }
    after_pulls(cursor, range, n).lemma_pull(range);
}

/// The cursor of a plane scan that has nothing left moves at most once more: where it stands
/// after the first further pull, it stands after any number of them.
pub proof fn lemma_exhausted_2d_cursor_rests<T: PointRangeIteratorPrimitive, U>(
    cursor: Point2D<T, U>,
    range: Range<Point2D<T, U>>,
    n: nat,
)
    requires
        cursor.remaining(range).len() == 0,
        n >= 1,
    ensures
        after_pulls(cursor, range, n) == cursor.advanced(range),
    decreases n,
{
    reveal_with_fuel(after_pulls, 2);
    cursor.lemma_pull(range);
    if n > 1 {
        lemma_exhausted_2d_cursor_rests(cursor, range, (n - 1) as nat);
    }
}

/// The cursor of a space scan that has nothing left moves at most once more: where it stands
/// after the first further pull, it stands after any number of them.
pub proof fn lemma_exhausted_3d_cursor_rests<T: PointRangeIteratorPrimitive, U>(
    cursor: Point3D<T, U>,
    range: Range<Point3D<T, U>>,
    n: nat,
)
    requires
        cursor.remaining(range).len() == 0,
        n >= 1,
    ensures
        after_pulls(cursor, range, n) == cursor.advanced(range),
    decreases n,
{
    reveal_with_fuel(after_pulls, 2);
    cursor.lemma_pull(range);
    if n > 1 {
        lemma_exhausted_3d_cursor_rests(cursor, range, (n - 1) as nat);
    }
}

} // verus!
