//! Tunable constants of the movement core and the configuration struct
//! handed to the integrator.
//!
//! World quantities are fixed-point `i64` values: `SCALE` sub-units are one
//! world unit, and `SCALE` sub-units of time are one second. Velocities are
//! world units per second, accelerations world units per second squared,
//! both times `SCALE`.

use vstd::prelude::*;

verus! {

/// Fixed-point sub-units per world unit and per second.
pub const SCALE: i64 = 1200;

/// Side length of one level block, in sub-units (16 world units).
pub const BLOCK_SIZE: i64 = 16 * SCALE;

/// Half a block, the collision probe offset (8 world units).
pub const HALF_BLOCK: i64 = 8 * SCALE;

/// Default downward gravity (320 world units per second squared).
pub const GRAVITY_DEFAULT: i64 = 320 * SCALE;

/// Upward velocity given by a jump (160 world units per second).
pub const JMP_VEL_PLAYER: i64 = 160 * SCALE;

/// Horizontal acceleration while steering (1200 world units per second squared).
pub const INITIAL_ACCEL_PLAYER: i64 = 1200 * SCALE;

/// Horizontal speed bound outside a dash (240 world units per second).
pub const MAX_VEL_PLAYER: i64 = 240 * SCALE;

/// Dead-zone half width: slower horizontal motion snaps to zero
/// (4 world units per second).
pub const MIN_VEL_PLAYER: i64 = 4 * SCALE;

/// Friction deceleration opposing horizontal motion
/// (150 world units per second squared).
pub const FRICTION: i64 = 150 * SCALE;

/// Speed at the start of a dash (880 world units per second).
pub const INITIAL_VEL_DASH: i64 = 880 * SCALE;

/// Deceleration opposing a dash (3800 world units per second squared).
pub const INITIAL_ACCEL_DASH: i64 = 3800 * SCALE;

/// Dash charges refilled while grounded.
pub const DEFAULT_DASH_COUNT: usize = 2;

/// One-shot dash duration: a fifth of `SCALE`, 0.2 seconds.
pub const DEFAULT_DASH_DURATION: i64 = 240;

/// Bound on body and solid coordinates accepted by the integrator.
pub const POS_LIMIT: i64 = 100_000_000_000_000;

/// Bound on velocities accepted by the integrator.
pub const VEL_LIMIT: i64 = 1_000_000_000_000;

/// Bound on accelerations, friction and gravity accepted by the integrator.
pub const ACC_LIMIT: i64 = 2_000_000_000;

/// Bound on every configuration value.
pub const CFG_LIMIT: i64 = 1_000_000_000;

/// Bound on one tick's elapsed time (10 seconds).
pub const DT_LIMIT: i64 = 12_000;

/// Bound on dash charge counts.
pub const COUNT_LIMIT: usize = 1_000_000;

/// Bound on timer readings accepted by the timer tick.
pub const TIME_LIMIT: i64 = 1_000_000_000_000;

/// Bound on tile indices accepted by the level builder.
pub const TILE_LIMIT: i64 = 40_000;

/// The tunables the integrator reads: speeds, accelerations, friction,
/// gravity, dash parameters and the collision probe offsets.
#[derive(Clone, Copy)]
pub struct PhysicsConfig {
    /// Default downward gravity.
    pub gravity: i64,
    /// Upward velocity given by a jump.
    pub jump_vel: i64,
    /// Horizontal acceleration while steering.
    pub accel: i64,
    /// Horizontal speed bound outside a dash.
    pub max_vel: i64,
    /// Dead-zone half width for the snap to rest.
    pub min_vel: i64,
    /// Friction deceleration opposing horizontal motion.
    pub friction: i64,
    /// Speed at the start of a dash.
    pub dash_vel: i64,
    /// Deceleration opposing a dash.
    pub dash_accel: i64,
    /// Dash charges refilled while grounded.
    pub dash_count: usize,
    /// Horizontal collision probe offset: half a block's width.
    pub half_block_x: i64,
    /// Vertical collision probe offset: half a block's height.
    pub half_block_y: i64,
}

impl PhysicsConfig {
    /// Ranges under which the integrator's arithmetic stays in `i64`.
    pub open spec fn wf(self) -> bool {
        &&& 0 <= self.gravity <= CFG_LIMIT
        &&& 0 <= self.jump_vel <= CFG_LIMIT
        &&& 0 <= self.accel <= CFG_LIMIT
        &&& 0 <= self.max_vel <= CFG_LIMIT
        &&& 0 <= self.min_vel <= CFG_LIMIT
        &&& 0 <= self.friction <= CFG_LIMIT
        &&& 0 <= self.dash_vel <= CFG_LIMIT
        &&& 0 <= self.dash_accel <= CFG_LIMIT
        &&& self.dash_count <= COUNT_LIMIT
        &&& 0 <= self.half_block_x <= CFG_LIMIT
        &&& 0 <= self.half_block_y <= CFG_LIMIT
    }
}

impl Default for PhysicsConfig {
    /// The tunables the original game runs with.
    fn default() -> (cfg: PhysicsConfig)
        ensures
            cfg.gravity == GRAVITY_DEFAULT,
            cfg.jump_vel == JMP_VEL_PLAYER,
            cfg.accel == INITIAL_ACCEL_PLAYER,
            cfg.max_vel == MAX_VEL_PLAYER,
            cfg.min_vel == MIN_VEL_PLAYER,
            cfg.friction == FRICTION,
            cfg.dash_vel == INITIAL_VEL_DASH,
            cfg.dash_accel == INITIAL_ACCEL_DASH,
            cfg.dash_count == DEFAULT_DASH_COUNT,
            cfg.half_block_x == HALF_BLOCK,
            cfg.half_block_y == HALF_BLOCK,
            cfg.wf(),
    {
        PhysicsConfig {
            gravity: GRAVITY_DEFAULT,
            jump_vel: JMP_VEL_PLAYER,
            accel: INITIAL_ACCEL_PLAYER,
            max_vel: MAX_VEL_PLAYER,
            min_vel: MIN_VEL_PLAYER,
            friction: FRICTION,
            dash_vel: INITIAL_VEL_DASH,
            dash_accel: INITIAL_ACCEL_DASH,
            dash_count: DEFAULT_DASH_COUNT,
            half_block_x: HALF_BLOCK,
            half_block_y: HALF_BLOCK,
        }
    }
}

} // verus!
