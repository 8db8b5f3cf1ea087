//! A 2D platformer physics core: gravity and position integration,
//! axis-aligned bounding-box collision detection and single-axis resolution
//! against static geometry, and a charge-and-release jump mechanic that
//! ground contact unlocks. All quantities are integers; every function carries a
//! contract that pins down its effect.

pub mod body;
pub mod collision;
pub mod control;
pub mod geom;
pub mod integrate;
pub mod tick;
pub mod world;
