use vstd::prelude::*;

verus! {

use crate::body::{ConfigError, orientation_of, Params, Player, StaticCollider};
use crate::collision::snaps_fit;
use crate::control::impulse_steps;
use crate::geom::{Aabb, Vec2};
use crate::tick::{
    colliders_ok, fixed_tick, fixed_tick_fits, fixed_tick_spec, variable_tick,
    variable_tick_spec, InputState,
};

/// One entry of the static level descriptor: a collider's center and
/// half-extent. The `center_z` component only orders render layers and
/// never enters the physics.
#[derive(Clone, Copy, Debug, PartialEq, Eq, Structural)]
pub struct LevelRecord {
    pub center_x: i64,
    pub center_y: i64,
    pub center_z: i64,
    pub half_x: i64,
    pub half_y: i64,
}

/// A record carries a usable shape: both half-extents strictly positive.
pub open spec fn record_valid(rec: LevelRecord) -> bool {
    rec.half_x > 0 && rec.half_y > 0
}

/// Every snap target the record's collider could impose on a player with
/// the given half-extent fits in `i64`.
pub open spec fn record_in_range(rec: LevelRecord, player_half: Vec2) -> bool {
    &&& rec.center_y + rec.half_y + player_half.y <= i64::MAX
    &&& rec.center_y - rec.half_y - player_half.y >= i64::MIN
    &&& rec.center_x - rec.half_x - player_half.x >= i64::MIN
    &&& rec.center_x + rec.half_x + player_half.x <= i64::MAX
}

/// The collider a level record describes.
pub open spec fn record_collider(rec: LevelRecord) -> StaticCollider {
    StaticCollider {
        aabb: Aabb {
            center: Vec2 { x: rec.center_x, y: rec.center_y },
            half: Vec2 { x: rec.half_x, y: rec.half_y },
        },
        orientation: orientation_of(Vec2 { x: rec.half_x, y: rec.half_y }),
    }
}

/// The whole configuration handed to `World::new` is acceptable.
pub open spec fn config_valid(
    player_half: Vec2,
    level: Seq<LevelRecord>,
    params: Params,
) -> bool {
    &&& params.wf()
    &&& player_half.x > 0 && player_half.y > 0
    &&& forall|i: int| 0 <= i < level.len() ==> record_valid(#[trigger] level[i])
    &&& forall|i: int| 0 <= i < level.len() ==> record_in_range(#[trigger] level[i], player_half)
}

/// The body store of a session: the single dynamic player, the fixed list
/// of static colliders built once from the level descriptor and immutable
/// thereafter, and the tuning constants.
pub struct World {
    pub player: Player,
    pub colliders: Vec<StaticCollider>,
    pub params: Params,
}

impl World {
    /// Session invariant: usable constants, a well-formed player, and
    /// well-formed colliders whose snap targets fit the numeric range.
    /// Every tick preserves it, since no system changes the player's
    /// half-extent or the collider list.
    pub open spec fn wf(self) -> bool {
        &&& self.params.wf()
        &&& self.player.wf(self.params.max_charge)
        &&& colliders_ok(self.player, self.colliders@)
    }

    /// Builds a session from the level descriptor: the player at rest at
    /// `player_pos`, grounded and uncharged, and one collider per record,
    /// in descriptor order. Any configuration fault is fatal here; none
    /// can arise later. Errors, each if and only if its inputs show the
    /// fault, checked in this order: unusable constants, a non-positive
    /// player or collider half-extent, a collider out of numeric range.
    #[verifier::loop_isolation(false)]
    pub fn new(
        player_pos: Vec2,
        player_half: Vec2,
        level: &Vec<LevelRecord>,
        params: Params,
    ) -> (r: Result<World, ConfigError>)
        ensures
            r matches Ok(w) ==> {
                &&& config_valid(player_half, level@, params)
                &&& w.wf()
                &&& w.params == params
                &&& w.player == (Player {
                    pos: player_pos,
                    vel: Vec2 { x: 0, y: 0 },
                    half: player_half,
                    can_jump: true,
                    jump_charge: 0,
                })
                &&& w.colliders@.len() == level@.len()
                &&& forall|i: int|
                    0 <= i < level@.len() ==> w.colliders@[i] == record_collider(
                        #[trigger] level@[i],
                    )
            },
            config_valid(player_half, level@, params) ==> r is Ok,
            !params.wf() ==> r == Err::<World, ConfigError>(ConfigError::InvalidParams),
            params.wf() && !(player_half.x > 0 && player_half.y > 0) ==> r == Err::<
                World,
                ConfigError,
            >(ConfigError::InvalidHalfExtent),
            params.wf() && player_half.x > 0 && player_half.y > 0 && (exists|i: int|
                0 <= i < level@.len() && !record_valid(#[trigger] level@[i])) ==> r == Err::<
                World,
                ConfigError,
            >(ConfigError::InvalidHalfExtent),
            params.wf() && player_half.x > 0 && player_half.y > 0 && (forall|i: int|
                0 <= i < level@.len() ==> record_valid(#[trigger] level@[i])) && (exists|i: int|
                0 <= i < level@.len() && !record_in_range(#[trigger] level@[i], player_half))
                ==> r == Err::<World, ConfigError>(ConfigError::LevelOutOfRange),
    {
        if !(params.gravity >= 0 && params.scale >= 0 && params.player_speed >= 0
            && params.charge_rate >= 0 && params.max_charge >= 0 && params.quantum > 0
            && params.jump_force >= 0) {
            return Err(ConfigError::InvalidParams);
        }
        let player = match Player::new(player_pos, player_half) {
            Ok(p) => p,
            Err(e) => {
                return Err(e);
            },
        };
        let mut i: usize = 0;
        while i < level.len()
            invariant
                0 <= i <= level@.len(),
                forall|j: int| 0 <= j < i ==> record_valid(#[trigger] level@[j]),
            decreases level@.len() - i,
        {
            let rec = level[i];
            if !(rec.half_x > 0 && rec.half_y > 0) {
                return Err(ConfigError::InvalidHalfExtent);
            }
            i = i + 1;
        }
        let mut i: usize = 0;
        while i < level.len()
            invariant
                0 <= i <= level@.len(),
                forall|j: int| 0 <= j < i ==> record_in_range(#[trigger] level@[j], player_half),
                player_half.x > 0,
                player_half.y > 0,
            decreases level@.len() - i,
        {
            let rec = level[i];
            let down: i128 = (rec.center_y as i128) + (rec.half_y as i128) + (
            player_half.y as i128);
            let up: i128 = (rec.center_y as i128) - (rec.half_y as i128) - (player_half.y as i128);
            let left: i128 = (rec.center_x as i128) - (rec.half_x as i128) - (
            player_half.x as i128);
            let right: i128 = (rec.center_x as i128) + (rec.half_x as i128) + (
            player_half.x as i128);
            if !(down <= i64::MAX as i128 && up >= i64::MIN as i128 && left >= i64::MIN as i128
                && right <= i64::MAX as i128) {
                return Err(ConfigError::LevelOutOfRange);
            }
            i = i + 1;
        }
        let mut colliders: Vec<StaticCollider> = Vec::new();
        let mut i: usize = 0;
        while i < level.len()
            invariant
                0 <= i <= level@.len(),
                colliders@.len() == i,
                forall|j: int| 0 <= j < level@.len() ==> record_valid(#[trigger] level@[j]),
                forall|j: int| 0 <= j < i ==> colliders@[j] == record_collider(#[trigger] level@[j]),
            decreases level@.len() - i,
        {
            let rec = level[i];
            let c = match StaticCollider::new(
                Vec2 { x: rec.center_x, y: rec.center_y },
                Vec2 { x: rec.half_x, y: rec.half_y },
            ) {
                Ok(c) => c,
                Err(e) => {
                    return Err(e);
                },
            };
            colliders.push(c);
            i = i + 1;
        }
        proof {
            assert forall|j: int|
                0 <= j < colliders@.len() implies (#[trigger] colliders@[j]).wf() && snaps_fit(
                player,
                colliders@[j],
            ) by {
                assert(colliders@[j] == record_collider(level@[j]));
                assert(record_valid(level@[j]));
                assert(record_in_range(level@[j], player_half));
            }
        }
        Ok(World { player, colliders, params })
    }

    /// Runs one fixed simulation tick on the store: gravity, collision
    /// resolution in collider-list order, position integration.
    pub fn fixed_tick(&mut self, dt: i64)
        requires
            old(self).wf(),
            dt >= 0,
            fixed_tick_fits(old(self).player, old(self).colliders@, old(self).params, dt),
        ensures
            final(self).wf(),
            final(self).player == fixed_tick_spec(
                old(self).player,
                old(self).colliders@,
                old(self).params,
                dt,
            ),
            final(self).colliders == old(self).colliders,
            final(self).params == old(self).params,
    {
        let ghost p0 = self.player;
        let mut p = self.player;
        fixed_tick(&mut p, &self.colliders, &self.params, dt);
        self.player = p;
        proof {
            assert forall|i: int|
                0 <= i < self.colliders@.len() implies (#[trigger] self.colliders@[i]).wf()
                && snaps_fit(self.player, self.colliders@[i]) by {
                assert(self.colliders@[i].wf() && snaps_fit(p0, self.colliders@[i]));
            }
        }
    }

    /// Runs one variable (render-rate) tick on the store: ground-state step,
    /// jump release, jump charging, horizontal movement.
    pub fn variable_tick(&mut self, input: InputState, dt: i64)
        requires
            old(self).wf(),
            dt >= 0,
            old(self).params.jump_force * dt <= i64::MAX,
            input.jump_released && old(self).player.can_jump && old(self).player.vel.y <= 0
                ==> old(self).player.vel.y + impulse_steps(
                old(self).player.jump_charge as int,
                old(self).params.quantum as int,
            ) * (old(self).params.jump_force * dt) <= i64::MAX,
        ensures
            final(self).wf(),
            final(self).player == variable_tick_spec(
                old(self).player,
                input,
                old(self).params,
                dt,
            ),
            final(self).colliders == old(self).colliders,
            final(self).params == old(self).params,
    {
        let ghost p0 = self.player;
        let mut p = self.player;
        variable_tick(&mut p, input, &self.params, dt);
        self.player = p;
        proof {
            assert forall|i: int|
                0 <= i < self.colliders@.len() implies (#[trigger] self.colliders@[i]).wf()
                && snaps_fit(self.player, self.colliders@[i]) by {
                assert(self.colliders@[i].wf() && snaps_fit(p0, self.colliders@[i]));
            }
        }
    }

    /// Presentation sink: the player's resolved bounding box, read-only
    /// for the renderer.
    pub fn player_aabb(&self) -> (r: Aabb)
        ensures
            r == self.player.aabb_spec(),
    {
        self.player.aabb()
    }

    /// Presentation sink: how many static colliders the session holds.
    pub fn collider_count(&self) -> (r: usize)
        ensures
            r == self.colliders@.len(),
    {
        self.colliders.len()
    }

    /// Presentation sink: the bounding box of the `i`-th static collider.
    pub fn collider_aabb(&self, i: usize) -> (r: Aabb)
        requires
            i < self.colliders@.len(),
        ensures
            r == self.colliders@[i as int].aabb,
    {
        self.colliders[i].aabb
    }
}

} // verus!
