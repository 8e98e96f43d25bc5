//! Animation core for a 2D sprite-based game.
//!
//! Given a catalog of named animations (frame ranges, per-frame duration,
//! looping behaviour) and a per-entity animator state (current state name,
//! current frame, countdown timer), the library advances displayed frames as
//! time elapses and switches the active state when the surrounding game logic
//! asks for it. All time values are integer time units (for example
//! microseconds); the embedding application converts from its own clock.

pub mod animator;
pub mod catalog;
pub mod defs;
pub mod laws;
