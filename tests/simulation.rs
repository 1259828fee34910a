use space_game::heading::{heading, wrap, HEADING_SCALE, HEADING_TOLERANCE, TWO_PI};
use space_game::ship::{Spaceship, INITIAL_ALIGNMENT, POSITION_SCALE, SHIP_HALF_EXTENT};
use space_game::space::{detect_collisions, Asteroid, Space, ASTEROID_HALF_EXTENT};
use space_game::Vector2;

const UNIT: i128 = POSITION_SCALE;

#[test]
fn new_ship_is_at_rest_and_faces_up() {
    let s = Spaceship::new(3, -2, 7);
    assert_eq!(s.position, Vector2::new(3 * UNIT, -2 * UNIT));
    assert_eq!(s.alignment_rad, INITIAL_ALIGNMENT);
    assert_eq!(s.alignment_rad, -1_570_796);
    assert_eq!(s.alignment, Vector2::new(0, -1_000_000));
    assert_eq!(s.rotation, 0);
    assert_eq!(s.velocity, Vector2::new(0, 0));
    assert_eq!(s.texture_id, 7);
}

#[test]
fn ship_box_surrounds_position() {
    let s = Spaceship::new(3, -2, 0);
    assert_eq!(s.aabb.min, Vector2::new(-125 * UNIT, -130 * UNIT));
    assert_eq!(s.aabb.max, Vector2::new(131 * UNIT, 126 * UNIT));
    assert_eq!(SHIP_HALF_EXTENT, 128 * UNIT);
}

#[test]
fn asteroid_box_surrounds_position() {
    let a = Asteroid::new(250, 0, 1);
    assert_eq!(a.position, Vector2::new(250 * UNIT, 0));
    assert_eq!(a.texture_id, 1);
    assert_eq!(a.aabb.min, Vector2::new(186 * UNIT, -64 * UNIT));
    assert_eq!(a.aabb.max, Vector2::new(314 * UNIT, 64 * UNIT));
    assert_eq!(ASTEROID_HALF_EXTENT, 64 * UNIT);
}

#[test]
fn box_follows_ship_after_update() {
    let mut s = Spaceship::new(0, 0, 0);
    s.move_right(20);
    s.move_backward(30);
    for _ in 0..5 {
        s.update(16);
        assert_eq!(s.aabb.min, Vector2::new(s.position.x - 128 * UNIT, s.position.y - 128 * UNIT));
        assert_eq!(s.aabb.max, Vector2::new(s.position.x + 128 * UNIT, s.position.y + 128 * UNIT));
    }
    assert_ne!(s.position, Vector2::new(0, 0));
}

#[test]
fn forward_then_update_moves_up() {
    let mut s = Spaceship::new(0, 0, 0);
    // one hundredth of a second of thrust gives one unit per second
    s.move_forward(10);
    assert_eq!(s.velocity, Vector2::new(0, -1_000_000_000));
    s.update(1000);
    assert_eq!(s.position, Vector2::new(0, -UNIT));
    assert_eq!(s.velocity, Vector2::new(0, -1_000_000_000));
    assert_eq!(s.alignment, Vector2::new(0, -1_000_000));
    assert_eq!(s.alignment_rad, TWO_PI - 1_570_796);
}

#[test]
fn backward_and_strafes_follow_the_heading() {
    let mut s = Spaceship::new(0, 0, 0);
    s.move_backward(10);
    assert_eq!(s.velocity, Vector2::new(0, 1_000_000_000));
    let mut s = Spaceship::new(0, 0, 0);
    s.move_left(10);
    assert_eq!(s.velocity, Vector2::new(-1_000_000_000, 0));
    let mut s = Spaceship::new(0, 0, 0);
    s.move_right(10);
    assert_eq!(s.velocity, Vector2::new(1_000_000_000, 0));
}

#[test]
fn thrust_accumulates_without_damping() {
    let mut s = Spaceship::new(0, 0, 0);
    let mut last_along = 0i128;
    for n in 1..=20i128 {
        s.move_forward(16);
        s.update(16);
        let along = s.velocity.x * s.alignment.x as i128 + s.velocity.y * s.alignment.y as i128;
        assert!(along >= last_along);
        last_along = along;
        assert_eq!(s.velocity, Vector2::new(0, -n * 1_000_000 * 100 * 16));
    }
    // releasing the key keeps the ship moving
    let v = s.velocity;
    for _ in 0..10 {
        s.update(16);
    }
    assert_eq!(s.velocity, v);
}

#[test]
fn turning_changes_the_angular_rate() {
    let mut s = Spaceship::new(0, 0, 0);
    s.rotate_left(500);
    assert_eq!(s.rotation, -500);
    s.rotate_right(200);
    assert_eq!(s.rotation, -300);
    s.update(1000);
    assert_eq!(s.alignment_rad, wrap(INITIAL_ALIGNMENT as i128 - 300_000));
    assert_eq!(s.alignment_rad, TWO_PI - 1_870_796);
    assert_eq!(s.alignment, heading(TWO_PI - 1_870_796));
    assert_eq!(s.rotation, -300);
}

#[test]
fn orientation_stays_within_one_turn() {
    let mut s = Spaceship::new(0, 0, 0);
    for _ in 0..50 {
        s.rotate_right(37);
        s.update(250);
        assert!(0 <= s.alignment_rad && s.alignment_rad < TWO_PI);
    }
    let mut s = Spaceship::new(0, 0, 0);
    for _ in 0..50 {
        s.rotate_left(41);
        s.update(250);
        assert!(0 <= s.alignment_rad && s.alignment_rad < TWO_PI);
    }
    let mut s = Spaceship::new(0, 0, 0);
    s.rotate_right(7000);
    s.update(1000);
    assert_eq!(s.alignment_rad, wrap(INITIAL_ALIGNMENT as i128 + 7_000_000));
}

#[test]
fn heading_has_unit_length_after_update() {
    let mut s = Spaceship::new(0, 0, 0);
    s.rotate_right(3);
    for _ in 0..200 {
        s.update(100);
        let rad = s.alignment_rad as f64 / 1_000_000.0;
        assert!((s.alignment.x as f64 / 1e6 - rad.cos()).abs() < 0.001);
        assert!((s.alignment.y as f64 / 1e6 - rad.sin()).abs() < 0.001);
        let norm = s.alignment.x * s.alignment.x + s.alignment.y * s.alignment.y;
        assert!((norm - HEADING_SCALE * HEADING_SCALE).abs() <= HEADING_TOLERANCE);
    }
}

#[test]
fn limits_are_reported() {
    let mut s = Spaceship::new(0, 0, 0);
    assert!(s.can_thrust(1000));
    assert!(s.can_turn(1000));
    assert!(s.can_update(1000));
    s.velocity = Vector2::new(0, i128::MIN + 10);
    assert!(!s.can_thrust(1000));
    assert!(!s.can_update(1000));
    assert!(s.can_update(0));
    s.rotation = i64::MAX;
    assert!(!s.can_turn(1));
    assert!(s.can_turn(0));
}

#[test]
fn space_starts_empty_and_keeps_order() {
    let mut space = Space::new(Spaceship::new(0, 0, 0));
    assert!(space.asteroids.is_empty());
    space.add_asteroid(Asteroid::new(250, 0, 1));
    space.add_asteroid(Asteroid::new(-300, 100, 2));
    space.add_asteroid(Asteroid::new(250, 0, 1));
    assert_eq!(space.asteroids.len(), 3);
    assert_eq!(space.asteroids[1].texture_id, 2);
    assert_eq!(space.asteroids[0], space.asteroids[2]);
}

#[test]
fn far_asteroid_does_not_collide() {
    let mut space = Space::new(Spaceship::new(0, 0, 0));
    space.add_asteroid(Asteroid::new(250, 0, 1));
    let ship = &space.player_spaceship.aabb;
    assert_eq!(ship.min, Vector2::new(-128 * UNIT, -128 * UNIT));
    assert_eq!(ship.max, Vector2::new(128 * UNIT, 128 * UNIT));
    assert!(detect_collisions(&space).is_empty());
}

#[test]
fn near_asteroid_collides_once() {
    let mut space = Space::new(Spaceship::new(100, 0, 0));
    space.add_asteroid(Asteroid::new(250, 0, 1));
    let ship = &space.player_spaceship.aabb;
    assert_eq!(ship.min, Vector2::new(-28 * UNIT, -128 * UNIT));
    assert_eq!(ship.max, Vector2::new(228 * UNIT, 128 * UNIT));
    assert_eq!(detect_collisions(&space), vec![0]);
}

#[test]
fn collisions_listed_in_order_every_tick() {
    let mut space = Space::new(Spaceship::new(0, 0, 0));
    space.add_asteroid(Asteroid::new(150, 0, 1));
    space.add_asteroid(Asteroid::new(-300, 100, 2));
    space.add_asteroid(Asteroid::new(-190, -190, 3));
    space.add_asteroid(Asteroid::new(0, 192, 1));
    assert_eq!(detect_collisions(&space), vec![0, 2, 3]);
    // a held overlap is reported again on the next tick
    space.player_spaceship.update(16);
    assert_eq!(detect_collisions(&space), vec![0, 2, 3]);
}

#[test]
fn ship_flies_into_asteroid() {
    let mut space = Space::new(Spaceship::new(0, 0, 0));
    space.add_asteroid(Asteroid::new(0, -250, 1));
    assert!(detect_collisions(&space).is_empty());
    // 100 units per second upward for a whole second
    space.player_spaceship.move_forward(1000);
    space.player_spaceship.update(1000);
    assert_eq!(space.player_spaceship.position, Vector2::new(0, -100 * UNIT));
    assert_eq!(detect_collisions(&space), vec![0]);
}
