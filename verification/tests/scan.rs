use euclid_ext::geometry::{Box2D, Box3D, Rect, Size2D};
use euclid_ext::point_range_iterator::{PointRangeIterator, PointRangeIteratorItem};
use euclid_ext::{Point2DRangeIterator, Points, ToPointRange};

#[derive(Debug, PartialEq, Eq, Hash)]
enum Space {}

type Point2D<T> = euclid_ext::geometry::Point2D<T, Space>;

type Point3D<T> = euclid_ext::geometry::Point3D<T, Space>;

fn plane(coordinates: &[(i32, i32)]) -> Vec<Point2D<i32>> {
    coordinates.iter().map(|&(x, y)| Point2D::new(x, y)).collect()
}

#[test]
fn range_2d_pulled_one_by_one() {
    let mut scan = PointRangeIterator::new(Point2D::new(10, 20)..Point2D::new(12, 22));
    assert_eq!(Some(Point2D::new(10, 20)), scan.next());
    assert_eq!(Some(Point2D::new(11, 20)), scan.next());
    assert_eq!(Some(Point2D::new(10, 21)), scan.next());
    assert_eq!(Some(Point2D::new(11, 21)), scan.next());
    assert_eq!(None, scan.next());
}

#[test]
fn range_2d_collected() {
    assert_eq!(
        plane(&[(10, 20), (11, 20), (10, 21), (11, 21)]),
        (Point2D::new(10, 20)..Point2D::new(12, 22)).points().collect()
    );
}

#[test]
fn plane_scan_pulled_one_by_one() {
    let mut scan = Point2DRangeIterator::new(Point2D::new(10, 20)..Point2D::new(12, 22));
    assert_eq!(Some(Point2D::new(10, 20)), scan.next());
    assert_eq!(Some(Point2D::new(11, 20)), scan.next());
    assert_eq!(Some(Point2D::new(10, 21)), scan.next());
    assert_eq!(Some(Point2D::new(11, 21)), scan.next());
    assert_eq!(None, scan.next());
    assert_eq!(None, scan.next());
}

#[test]
fn range_of_i64_points() {
    let range = euclid_ext::geometry::Point2D::<i64, Space>::new(10, 20)
        ..euclid_ext::geometry::Point2D::<i64, Space>::new(13, 22);
    let expected: Vec<euclid_ext::geometry::Point2D<i64, Space>> =
        [(10, 20), (11, 20), (12, 20), (10, 21), (11, 21), (12, 21)]
            .iter()
            .map(|&(x, y)| euclid_ext::geometry::Point2D::new(x, y))
            .collect();
    assert_eq!(expected, range.points().collect());
}

#[test]
fn rect_with_origin_and_size() {
    assert_eq!(
        plane(&[(10, 20), (11, 20), (12, 20), (10, 21), (11, 21), (12, 21)]),
        Rect::new(Point2D::new(10, 20), Size2D::new(3, 2))
            .points()
            .collect()
    );
}

#[test]
fn box_2d_from_corner_to_corner() {
    assert_eq!(
        plane(&[(5, 10), (6, 10), (7, 10), (5, 11), (6, 11), (7, 11)]),
        Box2D::new(Point2D::new(5, 10), Point2D::new(8, 12))
            .points()
            .collect()
    );
}

#[test]
fn range_3d_first_and_last_points() {
    let points = (Point3D::new(3, 5, 7)..Point3D::new(5, 8, 11)).points().collect();
    assert_eq!(24, points.len());
    assert_eq!(Point3D::new(3, 5, 7), points[0]);
    assert_eq!(Point3D::new(4, 5, 7), points[1]);
    assert_eq!(Point3D::new(3, 6, 7), points[2]);
    assert_eq!(Point3D::new(4, 7, 10), points[23]);
}

#[test]
fn count_is_product_of_extents_2d() {
    let points = (Point2D::new(-3, 4)..Point2D::new(4, 9)).points().collect();
    assert_eq!(7 * 5, points.len());
}

#[test]
fn count_is_product_of_extents_3d() {
    let points = (Point3D::new(-1, 0, 2)..Point3D::new(2, 4, 7)).points().collect();
    assert_eq!(3 * 4 * 5, points.len());
}

#[test]
fn scan_2d_is_the_product_in_order() {
    let (x0, x1, y0, y1) = (-2, 3, 7, 10);
    let mut expected = Vec::new();
    for y in y0..y1 {
        for x in x0..x1 {
            expected.push(Point2D::new(x, y));
        }
    }
    let points = (Point2D::new(x0, y0)..Point2D::new(x1, y1)).points().collect();
    assert_eq!(expected, points);
    for (i, p) in points.iter().enumerate() {
        assert_eq!(p.x, x0 + (i as i32) % (x1 - x0));
        assert_eq!(p.y, y0 + (i as i32) / (x1 - x0));
        for q in &points[i + 1..] {
            assert_ne!(p, q);
            assert!(p.y < q.y || (p.y == q.y && p.x < q.x));
        }
    }
}

#[test]
fn scan_3d_is_the_product_in_order() {
    let (x0, x1, y0, y1, z0, z1) = (1, 4, -1, 1, 5, 9);
    let mut expected = Vec::new();
    for z in z0..z1 {
        for y in y0..y1 {
            for x in x0..x1 {
                expected.push(Point3D::new(x, y, z));
            }
        }
    }
    let points = (Point3D::new(x0, y0, z0)..Point3D::new(x1, y1, z1)).points().collect();
    assert_eq!(expected, points);
    let (w, h) = (x1 - x0, y1 - y0);
    for (i, p) in points.iter().enumerate() {
        let i = i as i32;
        assert_eq!(p.x, x0 + i % w);
        assert_eq!(p.y, y0 + (i / w) % h);
        assert_eq!(p.z, z0 + i / (w * h));
    }
    for (i, p) in points.iter().enumerate() {
        for q in &points[i + 1..] {
            assert_ne!(p, q);
        }
    }
}

#[test]
fn empty_along_x_2d() {
    let mut scan = PointRangeIterator::new(Point2D::new(5, 0)..Point2D::new(5, 3));
    assert_eq!(None, scan.next());
    assert!((Point2D::new(5, 0)..Point2D::new(5, 3)).points().collect().is_empty());
}

#[test]
fn empty_along_y_2d() {
    let mut scan = PointRangeIterator::new(Point2D::new(0, 3)..Point2D::new(4, 3));
    assert_eq!(None, scan.next());
    assert!((Point2D::new(0, 3)..Point2D::new(4, 3)).points().collect().is_empty());
}

#[test]
fn inverted_range_2d_gives_nothing() {
    assert!((Point2D::new(7, 0)..Point2D::new(2, 3)).points().collect().is_empty());
    assert!((Point2D::new(0, 9)..Point2D::new(4, 3)).points().collect().is_empty());
    assert!((Point2D::new(7, 9)..Point2D::new(2, 3)).points().collect().is_empty());
}

#[test]
fn empty_along_each_axis_3d() {
    assert!((Point3D::new(1, 0, 0)..Point3D::new(1, 2, 2)).points().collect().is_empty());
    assert!((Point3D::new(0, 1, 0)..Point3D::new(2, 1, 2)).points().collect().is_empty());
    assert!((Point3D::new(0, 0, 1)..Point3D::new(2, 2, 1)).points().collect().is_empty());
    assert!((Point3D::new(3, 0, 0)..Point3D::new(1, 2, 2)).points().collect().is_empty());
    assert!((Point3D::new(0, 3, 0)..Point3D::new(2, 1, 2)).points().collect().is_empty());
    assert!((Point3D::new(0, 0, 3)..Point3D::new(2, 2, 1)).points().collect().is_empty());
    let mut scan = PointRangeIterator::new(Point3D::new(0, 3, 0)..Point3D::new(2, 1, 2));
    assert_eq!(None, scan.next());
}

#[test]
fn rect_without_area_gives_nothing() {
    assert!(Rect::new(Point2D::new(10, 20), Size2D::new(0, 5)).points().collect().is_empty());
    assert!(Rect::new(Point2D::new(10, 20), Size2D::new(5, 0)).points().collect().is_empty());
    assert!(Rect::new(Point2D::new(10, 20), Size2D::new(0, 0)).points().collect().is_empty());
}

#[test]
fn rect_with_negative_size_gives_nothing() {
    let rect = Rect::new(Point2D::new(10, 20), Size2D::new(-3, 2));
    assert_eq!(Point2D::new(10, 20)..Point2D::new(7, 22), rect.to_point_range());
    assert!(rect.points().collect().is_empty());
    let rect = Rect::new(Point2D::new(10, 20), Size2D::new(3, -2));
    assert_eq!(Point2D::new(10, 20)..Point2D::new(13, 18), rect.to_point_range());
    assert!(rect.points().collect().is_empty());
}

#[test]
fn box_with_equal_corners_gives_nothing() {
    assert!(Box2D::new(Point2D::new(4, 4), Point2D::new(4, 4)).points().collect().is_empty());
    assert!(Box3D::new(Point3D::new(4, 4, 4), Point3D::new(4, 4, 4)).points().collect().is_empty());
}

#[test]
fn exhausted_scan_stays_exhausted_2d() {
    let mut scan = PointRangeIterator::new(Point2D::new(0, 0)..Point2D::new(1, 1));
    assert_eq!(Some(Point2D::new(0, 0)), scan.next());
    for _ in 0..100 {
        assert_eq!(None, scan.next());
    }
}

#[test]
fn exhausted_scan_stays_exhausted_3d() {
    let mut scan = PointRangeIterator::new(Point3D::new(0, 0, 0)..Point3D::new(1, 1, 1));
    assert_eq!(Some(Point3D::new(0, 0, 0)), scan.next());
    for _ in 0..100 {
        assert_eq!(None, scan.next());
    }
}

#[test]
fn rect_is_scanned_as_its_range() {
    let rect = Rect::new(Point2D::new(-4, 9), Size2D::new(6, 3));
    let range = Point2D::new(-4, 9)..Point2D::new(2, 12);
    assert_eq!(range.clone(), rect.to_point_range());
    assert_eq!(range.points().collect(), rect.points().collect());
}

#[test]
fn box_is_scanned_as_its_range() {
    let bounds = Box2D::new(Point2D::new(-4, 9), Point2D::new(2, 12));
    let range = Point2D::new(-4, 9)..Point2D::new(2, 12);
    assert_eq!(range.clone(), bounds.to_point_range());
    assert_eq!(range.points().collect(), bounds.points().collect());
    let bounds = Box3D::new(Point3D::new(0, 1, 2), Point3D::new(2, 3, 4));
    let range = Point3D::new(0, 1, 2)..Point3D::new(2, 3, 4);
    assert_eq!(range.clone(), bounds.to_point_range());
    assert_eq!(range.points().collect(), bounds.points().collect());
}

#[test]
fn box_corners_are_not_put_in_order() {
    let bounds = Box2D::new(Point2D::new(8, 12), Point2D::new(5, 10));
    assert_eq!(Point2D::new(8, 12)..Point2D::new(5, 10), bounds.to_point_range());
    assert!(bounds.points().collect().is_empty());
}

#[test]
fn range_is_its_own_point_range() {
    let range = Point2D::new(1, 2)..Point2D::new(3, 4);
    assert_eq!(Point2D::new(1, 2)..Point2D::new(3, 4), range.to_point_range());
    let range = Point3D::new(1, 2, 3)..Point3D::new(4, 5, 6);
    assert_eq!(Point3D::new(1, 2, 3)..Point3D::new(4, 5, 6), range.to_point_range());
}

#[test]
fn rect_end_is_origin_plus_size() {
    let rect = Rect::new(Point2D::new(10, 13), Size2D::new(4, 3));
    let range = rect.to_point_range();
    assert_eq!(Point2D::new(10, 13), range.start);
    assert_eq!(Point2D::new(14, 16), range.end);
    assert_eq!(Point2D::new(14, 16), Point2D::new(10, 13).add_size(Size2D::new(4, 3)));
}

#[test]
fn cursor_step_inside_a_row() {
    let range = Point2D::new(10, 20)..Point2D::new(12, 22);
    let mut cursor = Point2D::new(10, 20);
    assert_eq!(Some(Point2D::new(10, 20)), cursor.next(&range));
    assert_eq!(Point2D::new(11, 20), cursor);
}

#[test]
fn cursor_step_from_the_end_of_a_row() {
    let range = Point2D::new(10, 20)..Point2D::new(12, 22);
    let mut cursor = Point2D::new(12, 20);
    assert_eq!(Some(Point2D::new(10, 21)), cursor.next(&range));
    assert_eq!(Point2D::new(11, 21), cursor);
}

#[test]
fn cursor_step_past_the_last_row() {
    let range = Point2D::new(10, 20)..Point2D::new(12, 22);
    let mut cursor = Point2D::new(12, 21);
    assert_eq!(None, cursor.next(&range));
    assert_eq!(Point2D::new(10, 22), cursor);
    assert_eq!(None, cursor.next(&range));
    assert_eq!(Point2D::new(10, 22), cursor);
    let mut cursor = Point2D::new(3, 40);
    assert_eq!(None, cursor.next(&range));
    assert_eq!(Point2D::new(3, 40), cursor);
}

#[test]
fn cursor_outside_its_row_still_runs_to_the_end_of_the_row() {
    let range = Point2D::new(10, 20)..Point2D::new(12, 22);
    let mut cursor = Point2D::new(7, 21);
    let mut seen = Vec::new();
    while let Some(p) = cursor.next(&range) {
        seen.push(p);
    }
    assert_eq!(plane(&[(7, 21), (8, 21), (9, 21), (10, 21), (11, 21)]), seen);
}

#[test]
fn cursor_on_an_empty_row_runs_to_the_last_row() {
    let range = Point2D::new(5, 0)..Point2D::new(5, 3);
    let mut cursor = Point2D::new(5, 0);
    assert_eq!(None, cursor.next(&range));
    assert_eq!(Point2D::new(5, 3), cursor);
}

#[test]
fn cursor_step_3d() {
    let range = Point3D::new(3, 5, 7)..Point3D::new(5, 8, 11);
    let mut cursor = Point3D::new(3, 5, 7);
    assert_eq!(Some(Point3D::new(3, 5, 7)), cursor.next(&range));
    assert_eq!(Point3D::new(4, 5, 7), cursor);
    let mut cursor = Point3D::new(5, 5, 7);
    assert_eq!(Some(Point3D::new(3, 6, 7)), cursor.next(&range));
    assert_eq!(Point3D::new(4, 6, 7), cursor);
    let mut cursor = Point3D::new(5, 7, 7);
    assert_eq!(Some(Point3D::new(3, 5, 8)), cursor.next(&range));
    assert_eq!(Point3D::new(4, 5, 8), cursor);
    let mut cursor = Point3D::new(5, 7, 10);
    assert_eq!(None, cursor.next(&range));
    assert_eq!(Point3D::new(3, 5, 11), cursor);
    assert_eq!(None, cursor.next(&range));
    assert_eq!(Point3D::new(3, 5, 11), cursor);
    let mut cursor = Point3D::new(0, 0, 11);
    assert_eq!(None, cursor.next(&range));
    assert_eq!(Point3D::new(0, 0, 11), cursor);
}

#[test]
fn collect_gives_what_is_left() {
    let mut scan = (Point2D::new(0, 0)..Point2D::new(2, 2)).points();
    assert_eq!(Some(Point2D::new(0, 0)), scan.next());
    assert_eq!(plane(&[(1, 0), (0, 1), (1, 1)]), scan.collect());
}

#[test]
fn cloned_scan_goes_its_own_way() {
    let mut scan = (Point2D::new(0, 0)..Point2D::new(2, 2)).points();
    assert_eq!(Some(Point2D::new(0, 0)), scan.next());
    let mut copy = scan.clone();
    assert_eq!(scan, copy);
    assert_eq!(Some(Point2D::new(1, 0)), copy.next());
    assert_ne!(scan, copy);
    assert_eq!(Some(Point2D::new(1, 0)), scan.next());
    assert_eq!(scan, copy);
}

#[test]
fn scan_up_to_the_largest_scalar() {
    let range = euclid_ext::geometry::Point2D::<u8, Space>::new(254, 254)
        ..euclid_ext::geometry::Point2D::<u8, Space>::new(255, 255);
    let points = range.points().collect();
    assert_eq!(vec![euclid_ext::geometry::Point2D::<u8, Space>::new(254, 254)], points);
    let range = euclid_ext::geometry::Point3D::<i8, Space>::new(126, 126, 126)
        ..euclid_ext::geometry::Point3D::<i8, Space>::new(127, 127, 127);
    let points = range.points().collect();
    assert_eq!(vec![euclid_ext::geometry::Point3D::<i8, Space>::new(126, 126, 126)], points);
}

#[test]
fn scan_from_the_smallest_scalar() {
    let range = euclid_ext::geometry::Point2D::<i8, Space>::new(-128, -128)
        ..euclid_ext::geometry::Point2D::<i8, Space>::new(-126, -127);
    let points = range.points().collect();
    assert_eq!(
        vec![
            euclid_ext::geometry::Point2D::<i8, Space>::new(-128, -128),
            euclid_ext::geometry::Point2D::<i8, Space>::new(-127, -128)
        ],
        points
    );
}
