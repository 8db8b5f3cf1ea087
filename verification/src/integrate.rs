use vstd::prelude::*;

verus! {

use crate::body::Player;
use crate::geom::Vec2;

/// Effect of one gravity step: the vertical velocity drops by
/// `gravity * dt`; nothing else moves.
pub open spec fn gravity_spec(p: Player, gravity: i64, dt: i64) -> Player {
    Player { vel: Vec2 { x: p.vel.x, y: (p.vel.y - gravity * dt) as i64 }, ..p }
}

/// Advances the player's velocity by gravitational acceleration for one
/// fixed tick of duration `dt`. There is no terminal-velocity clamp: fall
/// speed grows without bound while the player stays airborne.
pub fn apply_gravity(p: &mut Player, gravity: i64, dt: i64)
    requires
        gravity >= 0,
        dt >= 0,
        gravity * dt <= i64::MAX,
        i64::MIN <= old(p).vel.y - gravity * dt,
    ensures
        *final(p) == gravity_spec(*old(p), gravity, dt),
        final(p).vel.y == old(p).vel.y - gravity * dt,
{
    proof {
        assert(gravity * dt >= 0) by (nonlinear_arith)
            requires
                gravity >= 0,
                dt >= 0,
        ;
    }
    let dv: i64 = gravity * dt;
    p.vel.y = p.vel.y - dv;
}

/// Effect of one position step: each axis advances independently by
/// `velocity * scale * dt`, where `scale` converts velocity units to
/// displacement.
pub open spec fn integrate_spec(p: Player, scale: i64, dt: i64) -> Player {
    Player {
        pos: Vec2 {
            x: (p.pos.x + p.vel.x * (scale * dt)) as i64,
            y: (p.pos.y + p.vel.y * (scale * dt)) as i64,
        },
        ..p
    }
}

/// Advances the player's position from its velocity over one fixed tick of
/// duration `dt`. Runs after collision resolution, so the displacement
/// reflects the resolved velocity for the tick.
pub fn integrate_position(p: &mut Player, scale: i64, dt: i64)
    requires
        scale >= 0,
        dt >= 0,
        scale * dt <= i64::MAX,
        i64::MIN <= old(p).vel.x * (scale * dt) <= i64::MAX,
        i64::MIN <= old(p).vel.y * (scale * dt) <= i64::MAX,
        i64::MIN <= old(p).pos.x + old(p).vel.x * (scale * dt) <= i64::MAX,
        i64::MIN <= old(p).pos.y + old(p).vel.y * (scale * dt) <= i64::MAX,
    ensures
        *final(p) == integrate_spec(*old(p), scale, dt),
        final(p).pos.x == old(p).pos.x + old(p).vel.x * (scale * dt),
        final(p).pos.y == old(p).pos.y + old(p).vel.y * (scale * dt),
{
    proof {
        assert(scale * dt >= 0) by (nonlinear_arith)
            requires
                scale >= 0,
                dt >= 0,
        ;
    }
    let sd: i64 = scale * dt;
    let dx: i64 = p.vel.x * sd;
    let dy: i64 = p.vel.y * sd;
    p.pos.x = p.pos.x + dx;
    p.pos.y = p.pos.y + dy;
}

} // verus!
