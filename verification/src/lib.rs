//! Verified 2D platformer movement core: kinematic integration, a dash
//! state machine with charges and a one-shot timer, and axis-separated
//! collision resolution against a static grid of solids.
//!
//! All world quantities are fixed-point integers: `SCALE` sub-units equal
//! one world unit, and one second of time.

pub mod config;
pub mod laws;
pub mod level;
pub mod math;
pub mod model;
pub mod physics;
pub mod player;
