use vstd::prelude::*;

verus! {

use crate::body::{Params, Player, StaticCollider};
use crate::collision::{
    lemma_resolve_no_contact, lemma_resolve_prefix_preserves, no_contact, resolve_all_spec,
    resolve_collisions, snaps_fit,
};
use crate::control::{
    charge_jump, charge_spec, ground_state_spec, horizontal_spec, impulse_steps, release_jump,
    release_spec, set_horizontal_velocity, update_ground_state,
};
use crate::integrate::{apply_gravity, gravity_spec, integrate_position, integrate_spec};

/// The per-frame digital input state the core consumes, supplied by an
/// external input adapter and read-only within a tick.
#[derive(Clone, Copy, Debug, PartialEq, Eq, Structural)]
pub struct InputState {
    /// The left movement key is down.
    pub left: bool,
    /// The right movement key is down.
    pub right: bool,
    /// The jump key is down.
    pub jump_held: bool,
    /// The jump key was released this frame (edge-triggered).
    pub jump_released: bool,
}

/// Every collider is well formed and every snap target it could impose on
/// this player fits in `i64`. Snap targets depend on the player only
/// through its half-extent, which no system ever changes.
pub open spec fn colliders_ok(p: Player, cs: Seq<StaticCollider>) -> bool {
    forall|i: int| 0 <= i < cs.len() ==> (#[trigger] cs[i]).wf() && snaps_fit(p, cs[i])
}

/// Effect of one fixed tick: gravity, then collision resolution against
/// each collider in list order, then position integration — strictly in
/// that order, so the resolver acts on post-gravity velocity and the
/// integrator on resolved velocity.
pub open spec fn fixed_tick_spec(p: Player, cs: Seq<StaticCollider>, params: Params, dt: i64) -> Player {
    integrate_spec(
        resolve_all_spec(gravity_spec(p, params.gravity, dt), cs),
        params.scale,
        dt,
    )
}

/// The arithmetic of one fixed tick stays within `i64`: the gravity step,
/// and the displacement and final position of the resolved state.
pub open spec fn fixed_tick_fits(p: Player, cs: Seq<StaticCollider>, params: Params, dt: i64) -> bool {
    let r = resolve_all_spec(gravity_spec(p, params.gravity, dt), cs);
    &&& params.gravity * dt <= i64::MAX
    &&& i64::MIN <= p.vel.y - params.gravity * dt
    &&& params.scale * dt <= i64::MAX
    &&& i64::MIN <= r.vel.x * (params.scale * dt) <= i64::MAX
    &&& i64::MIN <= r.vel.y * (params.scale * dt) <= i64::MAX
    &&& i64::MIN <= r.pos.x + r.vel.x * (params.scale * dt) <= i64::MAX
    &&& i64::MIN <= r.pos.y + r.vel.y * (params.scale * dt) <= i64::MAX
}

/// Runs one fixed simulation tick: gravity, collision resolution, position
/// integration, chained in that order on the same player.
pub fn fixed_tick(p: &mut Player, colliders: &Vec<StaticCollider>, params: &Params, dt: i64)
    requires
        params.wf(),
        dt >= 0,
        old(p).half.x > 0,
        old(p).half.y > 0,
        colliders_ok(*old(p), colliders@),
        fixed_tick_fits(*old(p), colliders@, *params, dt),
    ensures
        *final(p) == fixed_tick_spec(*old(p), colliders@, *params, dt),
        final(p).half == old(p).half,
        final(p).jump_charge == old(p).jump_charge,
{
    apply_gravity(p, params.gravity, dt);
    proof {
        assert forall|i: int|
            0 <= i < colliders@.len() implies (#[trigger] colliders@[i]).wf() && snaps_fit(
            *p,
            colliders@[i],
        ) by {
            assert(colliders@[i].wf() && snaps_fit(*old(p), colliders@[i]));
        }
    }
    resolve_collisions(p, colliders);
    proof {
        lemma_resolve_prefix_preserves(
            gravity_spec(*old(p), params.gravity, dt),
            colliders@,
            colliders@.len() as int,
        );
    }
    integrate_position(p, params.scale, dt);
}

/// Effect of one variable (render-rate) tick: the ground-state step, then the
/// jump controller (release, then charging), then the horizontal movement
/// controller, reading the given input state.
pub open spec fn variable_tick_spec(p: Player, input: InputState, params: Params, dt: i64) -> Player {
    horizontal_spec(
        charge_spec(
            release_spec(ground_state_spec(p), input.jump_released, params, dt),
            input.jump_held,
            params,
        ),
        input.left,
        input.right,
        params,
    )
}

/// Runs one variable tick: ground-state step, jump release, jump charging, then
/// horizontal movement, on the same player state the fixed ticks use.
pub fn variable_tick(p: &mut Player, input: InputState, params: &Params, dt: i64)
    requires
        params.wf(),
        old(p).wf(params.max_charge),
        dt >= 0,
        params.jump_force * dt <= i64::MAX,
        input.jump_released && old(p).can_jump && old(p).vel.y <= 0 ==> old(p).vel.y
            + impulse_steps(old(p).jump_charge as int, params.quantum as int) * (params.jump_force
            * dt) <= i64::MAX,
    ensures
        *final(p) == variable_tick_spec(*old(p), input, *params, dt),
        final(p).wf(params.max_charge),
        final(p).half == old(p).half,
        final(p).pos == old(p).pos,
{
    update_ground_state(p);
    release_jump(p, input.jump_released, params, dt);
    charge_jump(p, input.jump_held, params);
    set_horizontal_velocity(p, input.left, input.right, params);
}

/// The player after `n` fixed ticks.
pub open spec fn fixed_ticks(
    p: Player,
    cs: Seq<StaticCollider>,
    params: Params,
    dt: i64,
    n: nat,
) -> Player
    decreases n,
{
    if n == 0 {
        p
    } else {
        fixed_tick_spec(fixed_ticks(p, cs, params, dt, (n - 1) as nat), cs, params, dt)
    }
}

/// Free fall is linear: over any run of fixed ticks in which the player
/// never touches a collider, the vertical velocity after `n` ticks is
/// exactly the initial velocity minus `gravity * dt * n`, and the
/// horizontal velocity is untouched.
pub proof fn lemma_free_fall(p: Player, cs: Seq<StaticCollider>, params: Params, dt: i64, n: nat)
    requires
        params.wf(),
        dt >= 0,
        params.gravity * dt <= i64::MAX,
        i64::MIN <= p.vel.y - params.gravity * dt * n,
        forall|k: nat|
            k < n ==> #[trigger] no_contact(
                gravity_spec(fixed_ticks(p, cs, params, dt, k), params.gravity, dt),
                cs,
            ),
    ensures
        fixed_ticks(p, cs, params, dt, n).vel.y == p.vel.y - params.gravity * dt * n,
        fixed_ticks(p, cs, params, dt, n).vel.x == p.vel.x,
    decreases n,
{
    assert(params.gravity * dt >= 0) by (nonlinear_arith)
        requires
            params.gravity >= 0,
            dt >= 0,
    ;
    if n > 0 {
        let m = (n - 1) as nat;
        assert(params.gravity * dt * m <= params.gravity * dt * n) by (nonlinear_arith)
            requires
                params.gravity * dt >= 0,
                m <= n,
        ;
        lemma_free_fall(p, cs, params, dt, m);
        let prev = fixed_ticks(p, cs, params, dt, m);
        assert(params.gravity * dt * m + params.gravity * dt == params.gravity * dt * n)
            by (nonlinear_arith)
            requires
                m + 1 == n,
        ;
        let g = gravity_spec(prev, params.gravity, dt);
        assert(g.vel.y == p.vel.y - params.gravity * dt * n);
        assert(no_contact(g, cs));
        lemma_resolve_no_contact(g, cs, cs.len() as int);
        assert(resolve_all_spec(g, cs) == g);
    } else {
        assert(fixed_ticks(p, cs, params, dt, n) == p);
        assert(params.gravity * dt * n == 0) by (nonlinear_arith)
            requires
                n == 0,
        ;
    }
}

} // verus!
