//! Motion integration and collision detection and resolution for a 2D
//! arena shooter, on fixed-point integer quantities.
//!
//! Quantities are integers: lengths in `geometry::UNIT` steps per world
//! unit, time in milliseconds, angles in micro-degrees, chances in
//! millionths.
//!
//! `simulation::tick` runs the stages of a tick in order: the integrator
//! (`Motion2DSystem`), the detector (`CollisionDetectionSystem`), the
//! collision resolvers, target acquisition and mob movement with the
//! arena's edges for mobs and players, the health constrain step, mob destruction and the
//! defense pool.
use vstd::prelude::*;

pub mod angle;
pub mod arena;
pub mod behavior;
pub mod collisions;
pub mod detection;
pub mod geometry;
pub mod health;
pub mod kinds;
pub mod motion;
pub mod num;
pub mod simulation;
pub mod steering;
pub mod systems;
pub mod upkeep;
pub mod weapons;
pub mod world;

verus! {

} // verus!
