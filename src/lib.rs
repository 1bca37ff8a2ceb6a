//! Simulation rules of an arcade space shooter: the per-tick input snapshot,
//! the ship's two countdown timers, score and lives, and the bookkeeping that
//! decides which asteroids, bullets and explosions are created and retired in
//! a tick. Geometry (positions, velocities, trigonometry) is carried by the
//! host; the rules here consume the facts it measures.
pub mod movement;
pub mod clock;
pub mod status;
pub mod sweep;
pub mod plan;
pub mod effects;
pub mod laws;
