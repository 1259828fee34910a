use space_game::aabb::AABB;
use space_game::heading::{heading, wrap, HEADING_SCALE, HEADING_TOLERANCE, TWO_PI};
use space_game::Vector2;

fn boxed(x0: i128, y0: i128, x1: i128, y1: i128) -> AABB {
    AABB::new(Vector2::new(x0, y0), Vector2::new(x1, y1))
}

#[test]
fn vector_new_keeps_components() {
    let v = Vector2::new(3i64, -4i64);
    assert_eq!(v.x, 3);
    assert_eq!(v.y, -4);
}

#[test]
fn aabb_new_keeps_corners() {
    let b = boxed(-1, -2, 3, 4);
    assert_eq!(b.min, Vector2::new(-1, -2));
    assert_eq!(b.max, Vector2::new(3, 4));
}

#[test]
fn aabb_around_center() {
    let b = AABB::around(Vector2::new(10, -20), 5);
    assert_eq!(b.min, Vector2::new(5, -25));
    assert_eq!(b.max, Vector2::new(15, -15));
}

#[test]
fn intersect_is_symmetric() {
    let boxes = [
        boxed(0, 0, 10, 10),
        boxed(5, 5, 15, 15),
        boxed(10, 0, 20, 10),
        boxed(11, 0, 20, 10),
        boxed(-5, -5, 0, 0),
        boxed(2, 2, 3, 3),
        boxed(0, 11, 10, 20),
    ];
    for a in &boxes {
        for b in &boxes {
            assert_eq!(a.intersect(b), b.intersect(a));
        }
    }
}

#[test]
fn touching_edges_intersect() {
    let a = boxed(0, 0, 10, 10);
    let right = boxed(10, 0, 20, 10);
    let below = boxed(0, 10, 10, 20);
    let corner = boxed(10, 10, 20, 20);
    assert!(a.intersect(&right));
    assert!(right.intersect(&a));
    assert!(a.intersect(&below));
    assert!(a.intersect(&corner));
}

#[test]
fn separated_boxes_do_not_intersect() {
    let a = boxed(0, 0, 10, 10);
    assert!(!a.intersect(&boxed(11, 0, 20, 10)));
    assert!(!a.intersect(&boxed(-20, 0, -1, 10)));
    assert!(!a.intersect(&boxed(0, 11, 10, 20)));
    assert!(!a.intersect(&boxed(0, -20, 10, -1)));
    assert!(!boxed(11, 0, 20, 10).intersect(&a));
}

#[test]
fn overlapping_and_nested_boxes_intersect() {
    let a = boxed(0, 0, 10, 10);
    assert!(a.intersect(&boxed(5, 5, 15, 15)));
    assert!(a.intersect(&boxed(2, 2, 3, 3)));
    assert!(a.intersect(&a));
}

#[test]
fn wrap_brings_angles_into_one_turn() {
    assert_eq!(wrap(0), 0);
    assert_eq!(wrap(-1), TWO_PI - 1);
    assert_eq!(wrap(TWO_PI as i128), 0);
    assert_eq!(wrap(3 * TWO_PI as i128 + 7), 7);
    assert_eq!(wrap(-5 * TWO_PI as i128 - 7), TWO_PI - 7);
}

#[test]
fn heading_at_the_axes() {
    assert_eq!(heading(0), Vector2::new(1_000_000, 0));
    assert_eq!(heading(1_570_796), Vector2::new(0, 1_000_000));
    assert_eq!(heading(3_141_593), Vector2::new(-1_000_000, 0));
    assert_eq!(heading(4_712_389), Vector2::new(0, -1_000_000));
    assert_eq!(heading(TWO_PI - 1), Vector2::new(1_000_000, 0));
    // 45 degrees
    assert_eq!(heading(785_398), Vector2::new(707_107, 707_107));
}

#[test]
fn heading_follows_cosine_and_sine() {
    let mut theta: i64 = 0;
    while theta < TWO_PI {
        let h = heading(theta);
        let rad = theta as f64 / 1_000_000.0;
        let scale = HEADING_SCALE as f64;
        assert!((h.x as f64 / scale - rad.cos()).abs() < 0.001, "cos at {}", theta);
        assert!((h.y as f64 / scale - rad.sin()).abs() < 0.001, "sin at {}", theta);
        let length = ((h.x as f64 / scale).powi(2) + (h.y as f64 / scale).powi(2)).sqrt();
        assert!((length - 1.0).abs() < 1e-5, "length at {}", theta);
        let norm = h.x * h.x + h.y * h.y;
        assert!((norm - HEADING_SCALE * HEADING_SCALE).abs() <= HEADING_TOLERANCE);
        theta += 997;
    }
}
