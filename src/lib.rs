//! Combat core of a top-down arena survival game: hostile population,
//! targeting, motion, melee state machine, projectile collisions and the
//! difficulty curve, all on integer world coordinates.
//!
//! Lengths are measured in sub-units (thousandths of a world unit), times in
//! milliseconds and speeds in sub-units per second.

pub mod geometry;
pub mod health;
pub mod score;
pub mod timer;
pub mod difficulty;
pub mod combat;
pub mod random;
pub mod movement;
pub mod session;
pub mod app_state;
pub mod mixer;
