//! Fire-control timing for projectile weapons.
//!
//! The crate models a weapon's firing gate as a small state machine built on
//! one-shot countdown timers: an initial delay that must elapse once before
//! the weapon's first shot, followed by a reload countdown between shots whose
//! reset policy depends on the weapon's fire mode (automatic or manual).
//!
//! All durations are plain integer time units (for example microseconds); the
//! caller picks the resolution and converts from its own clock at the edge.

pub mod timer;
pub mod weapon;
