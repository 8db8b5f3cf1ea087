use vstd::prelude::*;

verus! {

use crate::body::{Orientation, Player, StaticCollider};
use crate::geom::{overlaps, overlaps_spec, Vec2};

/// Vertical snap target when the player lands on a platform: the player's
/// center sits one half-height above the platform's top edge.
pub open spec fn landing_y(p: Player, c: StaticCollider) -> int {
    c.aabb.top() + p.half.y
}

/// Vertical snap target when the player rises into a platform: the player's
/// center sits one half-height below the platform's bottom edge.
pub open spec fn ceiling_y(p: Player, c: StaticCollider) -> int {
    c.aabb.bottom() - p.half.y
}

/// Horizontal snap target against a wall hit while moving right: the
/// player's center sits one half-width left of the wall's left edge.
pub open spec fn right_stop_x(p: Player, c: StaticCollider) -> int {
    c.aabb.left() - p.half.x
}

/// Horizontal snap target against a wall hit while moving left: the
/// player's center sits one half-width right of the wall's right edge.
pub open spec fn left_stop_x(p: Player, c: StaticCollider) -> int {
    c.aabb.right() + p.half.x
}

/// All four snap targets a collider could impose on this player fit in
/// `i64`. The targets depend on the player only through its half-extent,
/// which resolution never changes.
pub open spec fn snaps_fit(p: Player, c: StaticCollider) -> bool {
    &&& landing_y(p, c) <= i64::MAX
    &&& ceiling_y(p, c) >= i64::MIN
    &&& right_stop_x(p, c) >= i64::MIN
    &&& left_stop_x(p, c) <= i64::MAX
}

/// One step of collision resolution: the player against a single static
/// collider. A non-overlapping collider changes nothing. A `Platform`
/// resolves only the vertical axis, a `Wall` only the horizontal axis, each
/// branch chosen by the sign of the current velocity on that axis: the
/// penetrated edge is snapped flush to the collider's facing edge and the
/// velocity component is clamped so it no longer points into the collider.
/// Landing on a platform additionally grounds the player.
pub open spec fn resolve_one(p: Player, c: StaticCollider) -> Player {
    if !overlaps_spec(p.aabb_spec(), c.aabb) {
        p
    } else if c.orientation == Orientation::Platform {
        if p.vel.y <= 0 && p.aabb_spec().bottom() < c.aabb.top() {
            Player {
                pos: Vec2 { x: p.pos.x, y: landing_y(p, c) as i64 },
                vel: Vec2 { x: p.vel.x, y: 0 },
                can_jump: true,
                ..p
            }
        } else if p.vel.y > 0 && p.aabb_spec().top() > c.aabb.bottom() {
            Player {
                pos: Vec2 { x: p.pos.x, y: ceiling_y(p, c) as i64 },
                vel: Vec2 { x: p.vel.x, y: 0 },
                ..p
            }
        } else {
            p
        }
    } else {
        if p.vel.x > 0 && p.aabb_spec().right() > c.aabb.left() {
            Player {
                pos: Vec2 { x: right_stop_x(p, c) as i64, y: p.pos.y },
                vel: Vec2 { x: 0, y: p.vel.y },
                ..p
            }
        } else if p.vel.x < 0 && p.aabb_spec().left() < c.aabb.right() {
            Player {
                pos: Vec2 { x: left_stop_x(p, c) as i64, y: p.pos.y },
                vel: Vec2 { x: 0, y: p.vel.y },
                ..p
            }
        } else {
            p
        }
    }
}

/// Resolves the player against a single static collider, exactly as
/// `resolve_one` describes.
pub fn resolve_collider(p: &mut Player, c: &StaticCollider)
    requires
        c.wf(),
        old(p).half.x > 0,
        old(p).half.y > 0,
        snaps_fit(*old(p), *c),
    ensures
        *final(p) == resolve_one(*old(p), *c),
{
    let pa = p.aabb();
    if overlaps(&pa, &c.aabb) {
        match c.orientation {
            Orientation::Platform => {
                let p_bottom: i128 = (p.pos.y as i128) - (p.half.y as i128);
                let p_top: i128 = (p.pos.y as i128) + (p.half.y as i128);
                let c_bottom: i128 = (c.aabb.center.y as i128) - (c.aabb.half.y as i128);
                let c_top: i128 = (c.aabb.center.y as i128) + (c.aabb.half.y as i128);
                if p.vel.y <= 0 {
                    if p_bottom < c_top {
                        let target: i128 = c_top + (p.half.y as i128);
                        assert(i64::MIN <= target <= i64::MAX);
                        p.pos.y = target as i64;
                        p.vel.y = 0;
                        p.can_jump = true;
                    }
                } else {
                    if p_top > c_bottom {
                        let target: i128 = c_bottom - (p.half.y as i128);
                        assert(i64::MIN <= target <= i64::MAX);
                        p.pos.y = target as i64;
                        p.vel.y = 0;
                    }
                }
            },
            Orientation::Wall => {
                let p_left: i128 = (p.pos.x as i128) - (p.half.x as i128);
                let p_right: i128 = (p.pos.x as i128) + (p.half.x as i128);
                let c_left: i128 = (c.aabb.center.x as i128) - (c.aabb.half.x as i128);
                let c_right: i128 = (c.aabb.center.x as i128) + (c.aabb.half.x as i128);
                if p.vel.x > 0 {
                    if p_right > c_left {
                        let target: i128 = c_left - (p.half.x as i128);
                        assert(i64::MIN <= target <= i64::MAX);
                        p.pos.x = target as i64;
                        p.vel.x = 0;
                    }
                } else if p.vel.x < 0 {
                    if p_left < c_right {
                        let target: i128 = c_right + (p.half.x as i128);
                        assert(i64::MIN <= target <= i64::MAX);
                        p.pos.x = target as i64;
                        p.vel.x = 0;
                    }
                }
            },
        }
    }
}

/// The player after resolving, in order, the first `n` colliders of `cs`.
pub open spec fn resolve_prefix(p: Player, cs: Seq<StaticCollider>, n: int) -> Player
    decreases n,
{
    if n <= 0 {
        p
    } else {
        resolve_one(resolve_prefix(p, cs, n - 1), cs[n - 1])
    }
}

/// The player after resolving every collider of `cs`, in list order.
/// Resolution is applied immediately per collider, so with several
/// overlapping colliders the outcome depends on this order.
pub open spec fn resolve_all_spec(p: Player, cs: Seq<StaticCollider>) -> Player {
    resolve_prefix(p, cs, cs.len() as int)
}

/// Resolution never changes the player's half-extent or jump charge.
pub proof fn lemma_resolve_prefix_preserves(p: Player, cs: Seq<StaticCollider>, n: int)
    ensures
        resolve_prefix(p, cs, n).half == p.half,
        resolve_prefix(p, cs, n).jump_charge == p.jump_charge,
    decreases n,
{
    if n > 0 {
        lemma_resolve_prefix_preserves(p, cs, n - 1);
    }
}

/// Resolves the player against each collider of the list, in order,
/// applying each result before testing the next collider.
pub fn resolve_collisions(p: &mut Player, colliders: &Vec<StaticCollider>)
    requires
        old(p).half.x > 0,
        old(p).half.y > 0,
        forall|i: int|
            0 <= i < colliders@.len() ==> (#[trigger] colliders@[i]).wf() && snaps_fit(
                *old(p),
                colliders@[i],
            ),
    ensures
        *final(p) == resolve_all_spec(*old(p), colliders@),
{
    let ghost p0 = *p;
    let mut cur: Player = *p;
    let mut i: usize = 0;
    while i < colliders.len()
        invariant
            0 <= i <= colliders@.len(),
            cur == resolve_prefix(p0, colliders@, i as int),
            p0.half.x > 0,
            p0.half.y > 0,
            forall|j: int|
                0 <= j < colliders@.len() ==> (#[trigger] colliders@[j]).wf() && snaps_fit(
                    p0,
                    colliders@[j],
                ),
        decreases colliders@.len() - i,
    {
        proof {
            lemma_resolve_prefix_preserves(p0, colliders@, i as int);
        }
        let c: StaticCollider = colliders[i];
        resolve_collider(&mut cur, &c);
        i = i + 1;
    }
    *p = cur;
}

/// The player touches no collider of `cs`.
pub open spec fn no_contact(p: Player, cs: Seq<StaticCollider>) -> bool {
    forall|i: int| 0 <= i < cs.len() ==> !overlaps_spec(p.aabb_spec(), (#[trigger] cs[i]).aabb)
}

/// With no collider in contact, resolution leaves the player unchanged.
pub proof fn lemma_resolve_no_contact(p: Player, cs: Seq<StaticCollider>, n: int)
    requires
        no_contact(p, cs),
        n <= cs.len(),
    ensures
        resolve_prefix(p, cs, n) == p,
    decreases n,
{
    if n > 0 {
        lemma_resolve_no_contact(p, cs, n - 1);
    }
}

/// Falling onto an overlapping platform lands the player with its bottom
/// edge exactly on the platform's top edge, a vertical velocity clamped to
/// zero, and the player grounded.
pub proof fn lemma_landing(p: Player, c: StaticCollider)
    requires
        c.wf(),
        p.half.x > 0,
        p.half.y > 0,
        snaps_fit(p, c),
        c.orientation == Orientation::Platform,
        overlaps_spec(p.aabb_spec(), c.aabb),
        p.vel.y <= 0,
    ensures
        resolve_one(p, c).aabb_spec().bottom() == c.aabb.top(),
        resolve_one(p, c).vel.y == 0,
        resolve_one(p, c).can_jump,
{
    assert(i64::MIN <= landing_y(p, c) <= i64::MAX);
}

/// Rising into an overlapping platform leaves the player with its top edge
/// exactly on the platform's bottom edge and a vertical velocity clamped
/// non-positive.
pub proof fn lemma_ceiling(p: Player, c: StaticCollider)
    requires
        c.wf(),
        p.half.x > 0,
        p.half.y > 0,
        snaps_fit(p, c),
        c.orientation == Orientation::Platform,
        overlaps_spec(p.aabb_spec(), c.aabb),
        p.vel.y > 0,
    ensures
        resolve_one(p, c).aabb_spec().top() == c.aabb.bottom(),
        resolve_one(p, c).vel.y <= 0,
{
    assert(i64::MIN <= ceiling_y(p, c) <= i64::MAX);
}

/// The jump permit is opened only by a qualifying downward collision with
/// a platform: if the player may jump after one resolution step, either it
/// already could, or this collider is an overlapping platform hit while
/// not rising.
pub proof fn lemma_grounding_needs_landing(p: Player, c: StaticCollider)
    ensures
        resolve_one(p, c).can_jump ==> p.can_jump || (c.orientation == Orientation::Platform
            && overlaps_spec(p.aabb_spec(), c.aabb) && p.vel.y <= 0),
{
}

/// The same through a whole resolution pass: a player that may jump after
/// resolving the first `n` colliders either could jump before, or some
/// collider of the prefix is a platform that the player, in the state
/// reached just before that collider's turn, overlapped while not rising.
pub proof fn lemma_grounding_needs_landing_all(p: Player, cs: Seq<StaticCollider>, n: int)
    ensures
        resolve_prefix(p, cs, n).can_jump ==> p.can_jump || (exists|i: int|
            0 <= i < n && (#[trigger] cs[i]).orientation == Orientation::Platform && overlaps_spec(
                resolve_prefix(p, cs, i).aabb_spec(),
                cs[i].aabb,
            ) && resolve_prefix(p, cs, i).vel.y <= 0),
    decreases n,
{
    if n > 0 && resolve_prefix(p, cs, n).can_jump {
        let before = resolve_prefix(p, cs, n - 1);
        lemma_grounding_needs_landing(before, cs[n - 1]);
        if before.can_jump {
            lemma_grounding_needs_landing_all(p, cs, n - 1);
        } else {
            assert(cs[n - 1].orientation == Orientation::Platform && overlaps_spec(
                before.aabb_spec(),
                cs[n - 1].aabb,
            ) && before.vel.y <= 0);
        }
    }
}

/// Resolution never reverses the sign of a velocity component: each
/// component comes out either unchanged or clamped to zero.
pub proof fn lemma_resolve_keeps_sign(p: Player, c: StaticCollider)
    ensures
        resolve_one(p, c).vel.x == p.vel.x || resolve_one(p, c).vel.x == 0,
        resolve_one(p, c).vel.y == p.vel.y || resolve_one(p, c).vel.y == 0,
        p.vel.x >= 0 ==> 0 <= resolve_one(p, c).vel.x <= p.vel.x,
        p.vel.x <= 0 ==> p.vel.x <= resolve_one(p, c).vel.x <= 0,
{
}

} // verus!
