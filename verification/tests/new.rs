use euclid_ext::geometry::{Box2D, Box3D, Point2D, Point3D, Rect, Size2D, Vector2D, Vector3D};

#[derive(Debug, PartialEq, Eq, Hash)]
enum Space {}

#[test]
fn point2d() {
    let point: Point2D<i32, Space> = euclid_ext::new::point2d(10, 20);
    assert_eq!(Point2D::new(10, 20), point);
}

#[test]
fn size2d() {
    let size: Size2D<usize, Space> = euclid_ext::new::size2d(5, 10);
    assert_eq!(Size2D::new(5, 10), size);
}

#[test]
fn vector2d() {
    let vector: Vector2D<f64, Space> = euclid_ext::new::vector2d(8.3, 12.5);
    assert_eq!(Vector2D::new(8.3, 12.5), vector);
}

#[test]
fn rect() {
    let rect: Rect<usize, Space> = euclid_ext::new::rect(
        euclid_ext::new::point2d(50, 100),
        euclid_ext::new::size2d(200, 200),
    );
    assert_eq!(
        Rect::new(Point2D::new(50, 100), Size2D::new(200, 200)),
        rect
    );
}

#[test]
fn point3d() {
    let point: Point3D<u8, Space> = euclid_ext::new::point3d(3, 7, 5);
    assert_eq!(Point3D::new(3, 7, 5), point);
}

#[test]
fn vector3d() {
    let vector: Vector3D<i32, Space> = euclid_ext::new::vector3d(10, 12, 14);
    assert_eq!(Vector3D::new(10, 12, 14), vector);
}

#[test]
fn box3d() {
    let bounds: Box3D<f32, Space> = euclid_ext::new::box3d(
        euclid_ext::new::point3d(1.4, 2.9, 3.1),
        euclid_ext::new::point3d(4.6, 5.7, 6.2),
    );
    assert_eq!(
        Box3D::new(Point3D::new(1.4, 2.9, 3.1), Point3D::new(4.6, 5.7, 6.2)),
        bounds
    );
}

#[test]
fn box2d_keeps_its_corners() {
    let bounds: Box2D<i32, Space> = euclid_ext::new::box2d(
        euclid_ext::new::point2d(10, 20),
        euclid_ext::new::point2d(15, 26),
    );
    assert_eq!(Box2D::new(Point2D::new(10, 20), Point2D::new(15, 26)), bounds);
    assert_eq!(bounds.min.x, 10);
    assert_eq!(bounds.min.y, 20);
    assert_eq!(bounds.max.x, 15);
    assert_eq!(bounds.max.y, 26);
}

#[test]
fn makers_keep_each_field() {
    let point: Point2D<i32, Space> = euclid_ext::new::point2d(5, 8);
    assert_eq!((point.x, point.y), (5, 8));
    let size: Size2D<i32, Space> = euclid_ext::new::size2d(11, 22);
    assert_eq!((size.width, size.height), (11, 22));
    let vector: Vector2D<i32, Space> = euclid_ext::new::vector2d(9, 10);
    assert_eq!((vector.x, vector.y), (9, 10));
    let point: Point3D<i32, Space> = euclid_ext::new::point3d(18, 3, 6);
    assert_eq!((point.x, point.y, point.z), (18, 3, 6));
    let vector: Vector3D<i32, Space> = euclid_ext::new::vector3d(7, 13, 19);
    assert_eq!((vector.x, vector.y, vector.z), (7, 13, 19));
    let rectangle: Rect<i32, Space> = euclid_ext::new::rect(
        euclid_ext::new::point2d(5, 8),
        euclid_ext::new::size2d(10, 15),
    );
    assert_eq!((rectangle.origin.x, rectangle.origin.y), (5, 8));
    assert_eq!((rectangle.size.width, rectangle.size.height), (10, 15));
    let bounds: Box3D<i32, Space> = euclid_ext::new::box3d(
        euclid_ext::new::point3d(1, 2, 3),
        euclid_ext::new::point3d(5, 6, 7),
    );
    assert_eq!((bounds.min.x, bounds.min.y, bounds.min.z), (1, 2, 3));
    assert_eq!((bounds.max.x, bounds.max.y, bounds.max.z), (5, 6, 7));
}
