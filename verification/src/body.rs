use vstd::prelude::*;

verus! {

use crate::geom::{Aabb, Vec2};

/// A configuration fault found while building the level or the player.
/// Such faults are fatal at initialization and never arise mid-session.
#[derive(Clone, Copy, Debug, PartialEq, Eq, Structural)]
pub enum ConfigError {
    /// A body was given a half-extent that is not strictly positive on
    /// both axes.
    InvalidHalfExtent,
    /// The session's tuning constants are unusable: a negative rate, or a
    /// drain quantum that is not strictly positive.
    InvalidParams,
    /// A collider sits so far out that a snap target against it would not
    /// fit in the numeric range.
    LevelOutOfRange,
}

/// The orientation of a static collider, fixed at creation from its shape:
/// a `Platform` is at least as wide as it is tall and resolves only the
/// vertical axis; a `Wall` is taller than it is wide and resolves only the
/// horizontal axis.
#[derive(Clone, Copy, Debug, PartialEq, Eq, Structural)]
pub enum Orientation {
    Platform,
    Wall,
}

/// The orientation a shape with the given half-extent must carry.
pub open spec fn orientation_of(half: Vec2) -> Orientation {
    if half.x >= half.y {
        Orientation::Platform
    } else {
        Orientation::Wall
    }
}

/// An immutable static collider: a well-formed box together with the
/// orientation derived from its shape.
#[derive(Clone, Copy, Debug, PartialEq, Eq, Structural)]
pub struct StaticCollider {
    pub aabb: Aabb,
    pub orientation: Orientation,
}

impl StaticCollider {
    /// Well-formedness: positive half-extents, and an orientation that
    /// agrees with the shape it was derived from.
    pub open spec fn wf(self) -> bool {
        &&& self.aabb.wf()
        &&& self.orientation == orientation_of(self.aabb.half)
    }

    /// Builds a collider, deriving its orientation from the half-extent.
    /// A half-extent that is not strictly positive on both axes is a fatal
    /// configuration error.
    pub fn new(center: Vec2, half: Vec2) -> (r: Result<StaticCollider, ConfigError>)
        ensures
            half.x > 0 && half.y > 0 ==> (r matches Ok(c) && c.aabb == (Aabb { center, half })
                && c.wf()),
            !(half.x > 0 && half.y > 0) ==> r == Err::<StaticCollider, ConfigError>(
                ConfigError::InvalidHalfExtent,
            ),
    {
        if half.x > 0 && half.y > 0 {
            let orientation = if half.x >= half.y {
                Orientation::Platform
            } else {
                Orientation::Wall
            };
            Ok(StaticCollider { aabb: Aabb { center, half }, orientation })
        } else {
            Err(ConfigError::InvalidHalfExtent)
        }
    }
}

/// The single dynamic body. Exactly one exists per session; it carries the
/// jump permit and the accumulated jump charge besides its kinematic state.
#[derive(Clone, Copy, Debug, PartialEq, Eq, Structural)]
pub struct Player {
    pub pos: Vec2,
    pub vel: Vec2,
    pub half: Vec2,
    pub can_jump: bool,
    pub jump_charge: i64,
}

impl Player {
    /// Well-formedness against the session's charge cap: positive
    /// half-extents and a charge within `[0, max_charge]`.
    pub open spec fn wf(self, max_charge: i64) -> bool {
        &&& self.half.x > 0 && self.half.y > 0
        &&& 0 <= self.jump_charge <= max_charge
    }

    /// The player's bounding box.
    pub open spec fn aabb_spec(self) -> Aabb {
        Aabb { center: self.pos, half: self.half }
    }

    /// The player's bounding box, for the broad-phase test and for the
    /// presentation sink.
    pub fn aabb(&self) -> (r: Aabb)
        ensures
            r == self.aabb_spec(),
    {
        Aabb { center: self.pos, half: self.half }
    }

    /// Builds the player at rest at `pos`, grounded, with no charge.
    /// A half-extent that is not strictly positive on both axes is a fatal
    /// configuration error.
    pub fn new(pos: Vec2, half: Vec2) -> (r: Result<Player, ConfigError>)
        ensures
            half.x > 0 && half.y > 0 ==> (r matches Ok(p) && p == (Player {
                pos,
                vel: Vec2 { x: 0, y: 0 },
                half,
                can_jump: true,
                jump_charge: 0,
            })),
            !(half.x > 0 && half.y > 0) ==> r == Err::<Player, ConfigError>(
                ConfigError::InvalidHalfExtent,
            ),
    {
        if half.x > 0 && half.y > 0 {
            Ok(Player { pos, vel: Vec2 { x: 0, y: 0 }, half, can_jump: true, jump_charge: 0 })
        } else {
            Err(ConfigError::InvalidHalfExtent)
        }
    }
}

/// The tuning constants of a session. All are fixed at initialization.
#[derive(Clone, Copy, Debug, PartialEq, Eq, Structural)]
pub struct Params {
    /// Downward acceleration applied to the player each fixed tick,
    /// per unit of tick duration.
    pub gravity: i64,
    /// Conversion factor from velocity units to displacement units in the
    /// position integrator.
    pub scale: i64,
    /// Magnitude of the horizontal velocity set while a direction key is
    /// held.
    pub player_speed: i64,
    /// Charge gained per variable tick while the jump key is held.
    pub charge_rate: i64,
    /// Upper bound on the accumulated jump charge.
    pub max_charge: i64,
    /// Charge drained per impulse step when a jump is released.
    pub quantum: i64,
    /// Upward force gained per impulse step, per unit of tick duration.
    pub jump_force: i64,
}

impl Params {
    /// Well-formedness: all rates non-negative, and a positive drain
    /// quantum so the release loop terminates.
    pub open spec fn wf(self) -> bool {
        &&& self.gravity >= 0
        &&& self.scale >= 0
        &&& self.player_speed >= 0
        &&& self.charge_rate >= 0
        &&& self.max_charge >= 0
        &&& self.quantum > 0
        &&& self.jump_force >= 0
    }
}

} // verus!
