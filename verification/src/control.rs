use vstd::prelude::*;

verus! {

use crate::body::{Params, Player};
use crate::geom::Vec2;

/// Effect of the ground-state step: any upward motion makes the player airborne,
/// so jumping is barred; otherwise the ground state is kept.
pub open spec fn ground_state_spec(p: Player) -> Player {
    if p.vel.y > 0 {
        Player { can_jump: false, ..p }
    } else {
        p
    }
}

/// Ground-state machine: the instant the resolved vertical
/// velocity becomes positive the player counts as airborne and may not
/// jump again until a qualifying landing grounds it anew.
pub fn update_ground_state(p: &mut Player)
    ensures
        *final(p) == ground_state_spec(*old(p)),
{
    if p.vel.y > 0 {
        p.can_jump = false;
    }
}

/// Effect of one charging step: while the jump key is held and the player
/// is grounded, the charge grows by `charge_rate`, clamped to `max_charge`.
pub open spec fn charge_spec(p: Player, held: bool, params: Params) -> Player {
    if held && p.can_jump {
        Player {
            jump_charge: if p.jump_charge + params.charge_rate >= params.max_charge {
                params.max_charge
            } else {
                (p.jump_charge + params.charge_rate) as i64
            },
            ..p
        }
    } else {
        p
    }
}

/// Accumulates jump charge for one variable tick while the key is held,
/// permitted only on ground contact and clamped to the charge cap.
pub fn charge_jump(p: &mut Player, held: bool, params: &Params)
    requires
        params.wf(),
        old(p).wf(params.max_charge),
    ensures
        *final(p) == charge_spec(*old(p), held, *params),
        final(p).wf(params.max_charge),
        final(p).jump_charge >= old(p).jump_charge,
{
    if held && p.can_jump {
        let room: i64 = params.max_charge - p.jump_charge;
        if room <= params.charge_rate {
            p.jump_charge = params.max_charge;
        } else {
            p.jump_charge = p.jump_charge + params.charge_rate;
        }
    }
}

/// The number of impulse steps a release converts the given charge into:
/// one step per started `quantum` of charge.
pub open spec fn impulse_steps(charge: int, quantum: int) -> int
    decreases charge + quantum,
{
    if charge <= 0 || quantum <= 0 {
        0
    } else {
        1 + impulse_steps(charge - quantum, quantum)
    }
}

/// The impulse step count is never negative.
pub proof fn lemma_impulse_steps_nonneg(charge: int, quantum: int)
    ensures
        impulse_steps(charge, quantum) >= 0,
    decreases charge + quantum,
{
    if charge > 0 && quantum > 0 {
        lemma_impulse_steps_nonneg(charge - quantum, quantum);
    }
}

/// Effect of a release event: while the player is grounded, the whole charge is
/// converted into `impulse_steps` fixed increments of `jump_force * dt`
/// added to the vertical velocity, and the charge is clamped to exactly
/// zero. Without a release, or while airborne, nothing changes.
pub open spec fn release_spec(p: Player, released: bool, params: Params, dt: i64) -> Player {
    if released && p.can_jump {
        Player {
            vel: Vec2 {
                x: p.vel.x,
                y: (p.vel.y + impulse_steps(p.jump_charge as int, params.quantum as int) * (
                params.jump_force * dt)) as i64,
            },
            jump_charge: 0,
            ..p
        }
    } else {
        p
    }
}

/// Converts the accumulated charge into a quantized upward impulse on the
/// edge-triggered release of the jump key, permitted only on ground contact: the
/// charge is drained one quantum at a time, each quantum adding a fixed
/// force increment to the vertical velocity, and is then clamped to zero.
pub fn release_jump(p: &mut Player, released: bool, params: &Params, dt: i64)
    requires
        params.wf(),
        old(p).wf(params.max_charge),
        dt >= 0,
        params.jump_force * dt <= i64::MAX,
        released && old(p).can_jump ==> old(p).vel.y + impulse_steps(
            old(p).jump_charge as int,
            params.quantum as int,
        ) * (params.jump_force * dt) <= i64::MAX,
    ensures
        *final(p) == release_spec(*old(p), released, *params, dt),
        final(p).wf(params.max_charge),
{
    if released && p.can_jump {
        proof {
            assert(params.jump_force * dt >= 0) by (nonlinear_arith)
                requires
                    params.jump_force >= 0,
                    dt >= 0,
            ;
        }
        let step: i64 = params.jump_force * dt;
        let ghost q: int = params.quantum as int;
        let ghost c0: int = p.jump_charge as int;
        let ghost v0: int = p.vel.y as int;
        let ghost total: int = impulse_steps(c0, q);
        let ghost mut k: int = 0;
        let mut charge: i64 = p.jump_charge;
        while charge > 0
            invariant
                q == params.quantum,
                q > 0,
                step == params.jump_force * dt,
                step >= 0,
                total == impulse_steps(c0, q),
                v0 + total * step <= i64::MAX,
                k >= 0,
                charge == c0 - k * q,
                p.vel.y == v0 + k * step,
                p.vel.x == old(p).vel.x,
                p.pos == old(p).pos,
                p.half == old(p).half,
                p.can_jump == old(p).can_jump,
                total == k + impulse_steps(charge as int, q),
                i64::MIN <= v0,
            decreases charge + params.quantum,
        {
            proof {
                lemma_impulse_steps_nonneg(charge - q, q);
                assert(impulse_steps(charge as int, q) == 1 + impulse_steps(charge - q, q));
                assert(k + 1 <= total);
                assert((k + 1) * step <= total * step) by (nonlinear_arith)
                    requires
                        k + 1 <= total,
                        step >= 0,
                ;
                assert((k + 1) * step == k * step + step) by (nonlinear_arith);
                assert((k + 1) * q == k * q + q) by (nonlinear_arith);
            }
            charge = charge - params.quantum;
            p.vel.y = p.vel.y + step;
            proof {
                k = k + 1;
            }
        }
        p.jump_charge = 0;
        proof {
            assert(impulse_steps(charge as int, q) == 0);
            assert(k == total);
        }
    }
}

/// Effect of the horizontal controller: the horizontal velocity is set
/// directly from the digital left/right input — `-player_speed`,
/// `+player_speed`, or zero when neither or both keys are down —
/// overwriting any prior value.
pub open spec fn horizontal_spec(p: Player, left: bool, right: bool, params: Params) -> Player {
    Player {
        vel: Vec2 {
            x: if left == right {
                0
            } else if right {
                params.player_speed
            } else {
                (-(params.player_speed as int)) as i64
            },
            y: p.vel.y,
        },
        ..p
    }
}

/// Sets the horizontal velocity from the left/right input state for one
/// variable tick. Onset and stop are instantaneous; there is no
/// acceleration curve.
pub fn set_horizontal_velocity(p: &mut Player, left: bool, right: bool, params: &Params)
    requires
        params.wf(),
    ensures
        *final(p) == horizontal_spec(*old(p), left, right, *params),
{
    if left == right {
        p.vel.x = 0;
    } else if right {
        p.vel.x = params.player_speed;
    } else {
        p.vel.x = 0 - params.player_speed;
    }
}

/// While held, the charge never decreases and never passes the cap; this
/// holds from any starting charge in `[0, max_charge]`.
pub proof fn lemma_charge_monotone(p: Player, held: bool, params: Params)
    requires
        params.wf(),
        p.wf(params.max_charge),
    ensures
        charge_spec(p, held, params).jump_charge >= p.jump_charge,
        charge_spec(p, held, params).jump_charge <= params.max_charge,
{
}

/// Immediately after a release event on a grounded player, the charge is
/// exactly zero, for any starting charge in `[0, max_charge]`; without a
/// release, or while airborne, it is unchanged.
pub proof fn lemma_release_zeroes_charge(p: Player, released: bool, params: Params, dt: i64)
    requires
        params.wf(),
        p.wf(params.max_charge),
    ensures
        released && p.can_jump ==> release_spec(p, released, params, dt).jump_charge == 0,
        !(released && p.can_jump) ==> release_spec(p, released, params, dt).jump_charge
            == p.jump_charge,
{
}

} // verus!
