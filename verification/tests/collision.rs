use platformer_core::body::{Orientation, Player, StaticCollider};
use platformer_core::collision::{resolve_collider, resolve_collisions};
use platformer_core::geom::{Aabb, Vec2};

fn player_at(x: i64, y: i64, vx: i64, vy: i64) -> Player {
    Player {
        pos: Vec2 { x, y },
        vel: Vec2 { x: vx, y: vy },
        half: Vec2 { x: 25, y: 25 },
        can_jump: false,
        jump_charge: 0,
    }
}

fn collider_at(cx: i64, cy: i64, hx: i64, hy: i64) -> StaticCollider {
    StaticCollider::new(Vec2 { x: cx, y: cy }, Vec2 { x: hx, y: hy }).unwrap()
}

#[test]
fn falling_player_lands_flush_on_platform_top() {
    // Overlapping from above while falling: the bottom edge snaps exactly
    // to the platform top edge, the fall stops, and the player is grounded.
    let mut p = player_at(0, 0, 0, -50);
    let c = collider_at(0, 0, 500, 25);
    assert_eq!(c.orientation, Orientation::Platform);
    resolve_collider(&mut p, &c);
    assert_eq!(p.pos.y, 50);
    assert_eq!(p.pos.y - p.half.y, 25); // player bottom == platform top
    assert_eq!(p.vel.y, 0);
    assert!(p.vel.y >= 0);
    assert!(p.can_jump);
    assert_eq!(p.pos.x, 0);
    assert_eq!(p.vel.x, 0);
}

#[test]
fn rising_player_stops_under_platform_bottom() {
    // Overlapping from below while rising: the top edge snaps exactly to
    // the platform's bottom edge and the climb is clamped non-positive.
    let mut p = player_at(0, 0, 0, 50);
    let c = collider_at(0, 40, 500, 25);
    resolve_collider(&mut p, &c);
    assert_eq!(p.pos.y + p.half.y, c.aabb.center.y - c.aabb.half.y);
    assert_eq!(p.pos.y, -10);
    assert!(p.vel.y <= 0);
    assert_eq!(p.vel.y, 0);
    assert!(!p.can_jump);
}

#[test]
fn wall_on_right_stops_rightward_motion() {
    let mut p = player_at(610, 0, 5, 0);
    let c = collider_at(650, 0, 25, 500);
    assert_eq!(c.orientation, Orientation::Wall);
    resolve_collider(&mut p, &c);
    // Right edge flush to the wall's left edge, velocity clamped into
    // [0, 5], never negative.
    assert_eq!(p.pos.x + p.half.x, 625);
    assert_eq!(p.pos.x, 600);
    assert!(p.vel.x >= 0 && p.vel.x <= 5);
    assert_eq!(p.vel.x, 0);
    assert_eq!(p.pos.y, 0);
}

#[test]
fn wall_on_left_stops_leftward_motion() {
    let mut p = player_at(-610, 0, -5, 0);
    let c = collider_at(-650, 0, 25, 500);
    resolve_collider(&mut p, &c);
    assert_eq!(p.pos.x - p.half.x, -625);
    assert_eq!(p.pos.x, -600);
    assert!(p.vel.x <= 0 && p.vel.x >= -5);
    assert_eq!(p.vel.x, 0);
}

#[test]
fn wall_does_not_touch_vertical_axis() {
    let mut p = player_at(610, 0, 5, -7);
    let c = collider_at(650, 0, 25, 500);
    resolve_collider(&mut p, &c);
    assert_eq!(p.vel.y, -7);
    assert_eq!(p.pos.y, 0);
    assert!(!p.can_jump);
}

#[test]
fn platform_does_not_touch_horizontal_axis() {
    let mut p = player_at(3, 0, 9, -50);
    let c = collider_at(0, 0, 500, 25);
    resolve_collider(&mut p, &c);
    assert_eq!(p.vel.x, 9);
    assert_eq!(p.pos.x, 3);
}

#[test]
fn no_overlap_leaves_player_unchanged() {
    let before = player_at(0, 100, 0, -50);
    let mut p = before;
    let c = collider_at(0, 0, 500, 25);
    resolve_collider(&mut p, &c);
    assert_eq!(p, before);
}

#[test]
fn wall_overlap_without_horizontal_motion_is_ignored() {
    let before = player_at(640, 0, 0, -3);
    let mut p = before;
    let c = collider_at(650, 0, 25, 500);
    resolve_collider(&mut p, &c);
    assert_eq!(p, before);
}

#[test]
fn colliders_resolve_in_list_order() {
    // Resolution applies immediately per collider, so with several
    // overlapping colliders the outcome depends on list order: landing on
    // the platform first lifts the player out of the short wall's reach,
    // while resolving the wall first stops the horizontal motion too.
    let p0 = player_at(620, 0, 5, -50);
    let platform = collider_at(0, 0, 1000, 25);
    let wall = collider_at(650, 0, 10, 20);
    assert_eq!(wall.orientation, Orientation::Wall);

    let mut p = p0;
    resolve_collisions(&mut p, &vec![platform, wall]);
    assert_eq!((p.pos.x, p.pos.y, p.vel.x), (620, 50, 5));

    let mut p = p0;
    resolve_collisions(&mut p, &vec![wall, platform]);
    assert_eq!((p.pos.x, p.pos.y, p.vel.x), (615, 50, 0));
}

#[test]
fn resolving_empty_collider_list_changes_nothing() {
    let before = player_at(4, 7, 1, -2);
    let mut p = before;
    resolve_collisions(&mut p, &vec![]);
    assert_eq!(p, before);
}

#[test]
fn landing_on_any_of_several_colliders_grounds_player() {
    let mut p = player_at(0, 0, 0, -50);
    let far_wall = collider_at(650, 0, 25, 500);
    let floor = collider_at(0, 0, 500, 25);
    resolve_collisions(&mut p, &vec![far_wall, floor]);
    assert_eq!(p.pos.y, 50);
    assert_eq!(p.vel.y, 0);
    assert!(p.can_jump);
}

#[test]
fn player_aabb_mirrors_position_and_half_extent() {
    let p = player_at(3, 4, 0, 0);
    assert_eq!(
        p.aabb(),
        Aabb { center: Vec2 { x: 3, y: 4 }, half: Vec2 { x: 25, y: 25 } }
    );
}
