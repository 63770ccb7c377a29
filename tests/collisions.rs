use poodg::geometry::{CollisionRectangle, GamePoint, Vector2};

fn rect(x: i32, y: i32, w: i32, h: i32) -> CollisionRectangle {
    CollisionRectangle::new(Vector2::from_pixels(x, y), Vector2::from_pixels(w, h))
}

#[test]
fn test_intersecting_rectangles() {
    let rect1 = rect(0, 0, 10, 10);
    let rect2 = rect(5, 5, 10, 10);

    assert!(rect1.intersects(&rect2));
    assert!(rect2.intersects(&rect1));
}

#[test]
fn test_non_intersecting_rectangles() {
    let rect1 = rect(0, 0, 10, 10);
    let rect2 = rect(20, 20, 5, 5);

    assert!(!rect1.intersects(&rect2));
    assert!(!rect2.intersects(&rect1));
}

#[test]
fn test_touching_rectangles_no_overlap() {
    let rect1 = rect(0, 0, 10, 10);
    let rect2 = rect(10, 0, 10, 10);

    assert!(!rect1.intersects(&rect2));
    assert!(!rect2.intersects(&rect1));
}

#[test]
fn test_contained_rectangle() {
    let rect1 = rect(0, 0, 10, 10);
    let rect2 = rect(2, 2, 5, 5);

    assert!(rect1.intersects(&rect2));
    assert!(rect2.intersects(&rect1));
}

#[test]
fn test_identical_rectangles() {
    let rect1 = rect(0, 0, 10, 10);
    let rect2 = rect(0, 0, 10, 10);

    assert!(rect1.intersects(&rect2));
    assert!(rect2.intersects(&rect1));
}

#[test]
fn touching_along_bottom_edge_does_not_intersect() {
    let a = rect(0, 0, 10, 10);
    let b = rect(3, 10, 4, 4);
    assert!(!a.intersects(&b));
    assert!(!b.intersects(&a));
}

#[test]
fn overlap_by_one_hundredth_intersects() {
    let a = rect(0, 0, 10, 10);
    let b = CollisionRectangle::new(Vector2::new(999, 0), Vector2::new(1000, 1000));
    assert!(a.intersects(&b));
    assert!(b.intersects(&a));
}

#[test]
fn in_rect_extends_upward() {
    let corner = GamePoint::new(10, 20);
    assert!(GamePoint::new(12, 15).in_rect(&corner, &5, &5));
    assert!(GamePoint::new(15, 15).in_rect(&corner, &5, &5));
    assert!(!GamePoint::new(12, 22).in_rect(&corner, &5, &5));
    assert!(!GamePoint::new(12, 14).in_rect(&corner, &5, &5));
    assert!(!GamePoint::new(9, 18).in_rect(&corner, &5, &5));
}

#[test]
fn pixels_round_down() {
    let p = GamePoint { x: 1299, y: -1 };
    let px = p.to_pixel();
    assert_eq!(px.x, 12);
    assert_eq!(px.y, -1);
    let q = GamePoint { x: -200, y: 6400 };
    let qx = q.to_pixel();
    assert_eq!(qx.x, -2);
    assert_eq!(qx.y, 64);
}
