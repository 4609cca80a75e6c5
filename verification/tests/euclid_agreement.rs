use euclid_ext::geometry::{Point2D, Rect, Size2D};
use euclid_ext::{Points, ToPointRange};

#[derive(Debug, PartialEq, Eq, Hash)]
enum Space {}

#[test]
fn rect_range_agrees_with_euclid() {
    let cases = [(10, 13, 4, 3), (-5, 7, 9, 0), (0, 0, -2, 6), (100, -100, 1, 1)];
    for &(x, y, w, h) in cases.iter() {
        let theirs = euclid::Rect::<i32, euclid::UnknownUnit>::new(
            euclid::Point2D::new(x, y),
            euclid::Size2D::new(w, h),
        );
        let end = theirs.origin + theirs.size;
        let ours: Rect<i32, Space> = Rect::new(Point2D::new(x, y), Size2D::new(w, h));
        let range = ours.to_point_range();
        assert_eq!((theirs.origin.x, theirs.origin.y), (range.start.x, range.start.y));
        assert_eq!((end.x, end.y), (range.end.x, range.end.y));
    }
}

#[test]
fn box_points_are_those_inside_the_box_of_euclid() {
    let theirs = euclid::Box2D::<i32, euclid::UnknownUnit>::new(
        euclid::Point2D::new(5, 10),
        euclid::Point2D::new(8, 12),
    );
    let ours: euclid_ext::geometry::Box2D<i32, Space> =
        euclid_ext::geometry::Box2D::new(Point2D::new(5, 10), Point2D::new(8, 12));
    let points = ours.points().collect();
    assert_eq!(6, points.len());
    for p in points.iter() {
        assert!(theirs.contains(euclid::Point2D::new(p.x, p.y)));
    }
    for x in 0..12 {
        for y in 5..16 {
            let inside = theirs.contains(euclid::Point2D::new(x, y));
            let listed = points.iter().any(|p| p.x == x && p.y == y);
            assert_eq!(inside, listed);
        }
    }
}
