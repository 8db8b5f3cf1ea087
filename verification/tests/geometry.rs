use platformer_core::body::{ConfigError, Orientation, Player, StaticCollider};
use platformer_core::geom::{overlaps, Aabb, Vec2};

fn boxed(cx: i64, cy: i64, hx: i64, hy: i64) -> Aabb {
    Aabb { center: Vec2 { x: cx, y: cy }, half: Vec2 { x: hx, y: hy } }
}

#[test]
fn overlap_detected_when_boxes_intersect() {
    let a = boxed(0, 0, 25, 25);
    let b = boxed(30, 10, 25, 25);
    assert!(overlaps(&a, &b));
}

#[test]
fn no_overlap_when_separated_on_one_axis() {
    let a = boxed(0, 0, 25, 25);
    let b = boxed(100, 0, 25, 25);
    assert!(!overlaps(&a, &b));
    let c = boxed(0, 100, 25, 25);
    assert!(!overlaps(&a, &c));
}

#[test]
fn touching_edges_do_not_overlap() {
    // The test is strict: a distance exactly equal to the summed
    // half-extents does not count as overlap.
    let a = boxed(0, 0, 25, 25);
    let b = boxed(50, 0, 25, 25);
    assert!(!overlaps(&a, &b));
    let c = boxed(0, 50, 25, 25);
    assert!(!overlaps(&a, &c));
}

#[test]
fn overlap_is_symmetric_on_samples() {
    let samples = [
        (boxed(0, 0, 25, 25), boxed(30, 10, 25, 25)),
        (boxed(0, 0, 25, 25), boxed(100, 0, 25, 25)),
        (boxed(-5, 3, 10, 2), boxed(4, 4, 1, 1)),
        (boxed(0, 0, 500, 25), boxed(0, 49, 25, 25)),
    ];
    for (a, b) in samples.iter() {
        assert_eq!(overlaps(a, b), overlaps(b, a));
    }
}

#[test]
fn overlap_handles_extreme_coordinates() {
    let a = boxed(i64::MAX - 10, 0, 5, 5);
    let b = boxed(i64::MIN + 10, 0, 5, 5);
    assert!(!overlaps(&a, &b));
}

#[test]
fn wide_collider_is_platform() {
    let c = StaticCollider::new(Vec2 { x: 0, y: 0 }, Vec2 { x: 500, y: 25 }).unwrap();
    assert_eq!(c.orientation, Orientation::Platform);
}

#[test]
fn tall_collider_is_wall() {
    let c = StaticCollider::new(Vec2 { x: 0, y: 0 }, Vec2 { x: 25, y: 500 }).unwrap();
    assert_eq!(c.orientation, Orientation::Wall);
}

#[test]
fn square_collider_is_platform() {
    let c = StaticCollider::new(Vec2 { x: 0, y: 0 }, Vec2 { x: 25, y: 25 }).unwrap();
    assert_eq!(c.orientation, Orientation::Platform);
}

#[test]
fn collider_with_flat_half_extent_is_rejected() {
    let r = StaticCollider::new(Vec2 { x: 0, y: 0 }, Vec2 { x: 0, y: 5 });
    assert_eq!(r, Err(ConfigError::InvalidHalfExtent));
    let r = StaticCollider::new(Vec2 { x: 0, y: 0 }, Vec2 { x: 5, y: -1 });
    assert_eq!(r, Err(ConfigError::InvalidHalfExtent));
}

#[test]
fn player_starts_grounded_at_rest() {
    let p = Player::new(Vec2 { x: 5, y: 5 }, Vec2 { x: 25, y: 25 }).unwrap();
    assert_eq!(p.pos, Vec2 { x: 5, y: 5 });
    assert_eq!(p.vel, Vec2 { x: 0, y: 0 });
    assert!(p.can_jump);
    assert_eq!(p.jump_charge, 0);
}

#[test]
fn player_with_flat_half_extent_is_rejected() {
    let r = Player::new(Vec2 { x: 0, y: 0 }, Vec2 { x: 25, y: 0 });
    assert_eq!(r, Err(ConfigError::InvalidHalfExtent));
}
