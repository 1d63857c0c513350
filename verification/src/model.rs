//! Mathematical model of one physics tick.
//!
//! `TickModel` gathers everything the integrator reads and writes for the
//! one controlled body, over unbounded integers. `tick_model` is the
//! transition function of a tick; the executable integrator is proved to
//! realise it exactly, and the laws of the crate are proved over it.

use vstd::prelude::*;

use crate::config::{PhysicsConfig, SCALE};
use crate::math::{div_trunc, sgn, clamp, sqrt_floor, dist3};
use crate::physics::DashState;

verus! {

/// One static axis-aligned solid: center and half extents.
pub ghost struct SolidModel {
    pub x: int,
    pub y: int,
    pub hx: int,
    pub hy: int,
}

impl SolidModel {
    /// Closed-bounds containment: inclusive on all four edges.
    pub open spec fn contains(self, px: int, py: int) -> bool {
        &&& self.x - self.hx <= px <= self.x + self.hx
        &&& self.y - self.hy <= py <= self.y + self.hy
    }
}

/// Whether some solid of the grid contains the point.
pub open spec fn occupied(grid: Seq<SolidModel>, px: int, py: int) -> bool {
    exists|i: int| 0 <= i < grid.len() && grid[i].contains(px, py)
}

/// The whole per-body state the integrator touches in one tick.
pub ghost struct TickModel {
    pub pos_x: int,
    pub pos_y: int,
    pub pos_z: int,
    pub vel_x: int,
    pub vel_y: int,
    pub acc_x: int,
    pub acc_y: int,
    pub fr: int,
    pub grav: int,
    pub grounded: bool,
    pub dir_x: int,
    pub dir_y: int,
    pub jump: bool,
    pub dash_count: int,
    pub status: DashState,
    pub elapsed: int,
    pub duration: int,
    pub distance: int,
    pub start_x: int,
    pub start_y: int,
    pub start_z: int,
}

/// Direction of a non-zero vector as a fixed-point unit vector
/// (length close to `SCALE`).
pub open spec fn norm_dir(vx: int, vy: int) -> (int, int) {
    let n = sqrt_floor((vx * vx + vy * vy) as nat) as int;
    (div_trunc(vx * SCALE, n), div_trunc(vy * SCALE, n))
}

/// The heading a starting dash takes: the normalized movement intent if it
/// is non-zero, else the direction of the current velocity, else rightward.
pub open spec fn dash_heading(s: TickModel) -> (int, int) {
    if s.dir_x == 0 && s.dir_y == 0 {
        if s.vel_x == 0 && s.vel_y == 0 {
            (SCALE as int, 0)
        } else {
            norm_dir(s.vel_x, s.vel_y)
        }
    } else {
        norm_dir(s.dir_x, s.dir_y)
    }
}

/// Whether this tick starts a dash with no charges left, which cancels the
/// dash and skips the rest of the tick.
pub open spec fn dash_cancels(s: TickModel) -> bool {
    s.status is Started && s.dash_count == 0
}

/// Dash transition handling: resolves `Started`, `Finished` and
/// `Cancelled` within the tick they are observed.
pub open spec fn m_dash_transition(s: TickModel, cfg: PhysicsConfig) -> TickModel {
    match s.status {
        DashState::Started => {
            if s.dash_count == 0 {
                TickModel { status: DashState::Cancelled, ..s }
            } else {
                let (tx, ty) = dash_heading(s);
                TickModel {
                    status: DashState::Dashing,
                    dash_count: s.dash_count - 1,
                    start_x: s.pos_x,
                    start_y: s.pos_y,
                    start_z: s.pos_z,
                    vel_x: div_trunc(tx * cfg.dash_vel, SCALE as int),
                    vel_y: div_trunc(ty * cfg.dash_vel, SCALE as int),
                    acc_x: div_trunc(-tx * cfg.dash_accel, SCALE as int),
                    acc_y: div_trunc(-ty * cfg.dash_accel, SCALE as int),
                    grav: 0,
                    fr: 0,
                    ..s
                }
            }
        },
        DashState::Finished => TickModel {
            distance: dist3(s.start_x, s.start_y, s.start_z, s.pos_x, s.pos_y, s.pos_z),
            status: DashState::Ready,
            grav: cfg.gravity as int,
            acc_y: 0,
            ..s
        },
        DashState::Cancelled => TickModel { status: DashState::Ready, ..s },
        _ => s,
    }
}

/// Non-dash control: charge refill and jump while grounded, then
/// horizontal steering or friction.
pub open spec fn m_control(s: TickModel, cfg: PhysicsConfig) -> TickModel {
    let s1 = if s.grounded {
        let s0 = TickModel { dash_count: cfg.dash_count as int, ..s };
        if s.jump {
            TickModel { vel_y: cfg.jump_vel as int, jump: false, ..s0 }
        } else {
            s0
        }
    } else {
        s
    };
    if s1.dir_x != 0 {
        TickModel { acc_x: sgn(s1.dir_x) * cfg.accel, fr: 0, ..s1 }
    } else {
        TickModel { acc_x: 0, fr: sgn(s1.vel_x) * cfg.friction, ..s1 }
    }
}

/// Displacement of this tick along the X axis, from the state before the
/// velocity update: `v * dt + (a - f) * dt * dt / 2`, in sub-units.
pub open spec fn m_move_x(s: TickModel, dt: int) -> int {
    div_trunc(s.vel_x * dt, SCALE as int) + div_trunc(
        (s.acc_x - s.fr) * dt * dt,
        2 * SCALE * SCALE,
    )
}

/// Displacement of this tick along the Y axis, with gravity in the net
/// acceleration.
pub open spec fn m_move_y(s: TickModel, dt: int) -> int {
    div_trunc(s.vel_y * dt, SCALE as int) + div_trunc(
        (s.acc_y - s.grav) * dt * dt,
        2 * SCALE * SCALE,
    )
}

/// Velocity update: net acceleration over the tick, with the horizontal
/// clamp applied outside a dash.
pub open spec fn m_update_vel(s: TickModel, dt: int, cfg: PhysicsConfig) -> TickModel {
    let vx = s.vel_x + div_trunc((s.acc_x - s.fr) * dt, SCALE as int);
    let vx1 = if !(s.status is Dashing) {
        clamp(vx, -cfg.max_vel as int, cfg.max_vel as int)
    } else {
        vx
    };
    let vy = s.vel_y + div_trunc((s.acc_y - s.grav) * dt, SCALE as int);
    TickModel { vel_x: vx1, vel_y: vy, ..s }
}

/// Dead-zone snap: slow horizontal coasting outside a dash comes to an
/// exact stop.
pub open spec fn m_dead_zone(s: TickModel, cfg: PhysicsConfig) -> TickModel {
    if -cfg.min_vel <= s.vel_x <= cfg.min_vel && s.dir_x == 0 && !(s.status is Dashing) {
        TickModel { vel_x: 0, acc_x: 0, fr: 0, ..s }
    } else {
        s
    }
}

/// The point probed on the X axis: the leading edge of the move.
pub open spec fn m_probe_x(s: TickModel, mx: int, cfg: PhysicsConfig) -> int {
    s.pos_x + mx + sgn(mx) * cfg.half_block_x
}

/// X-axis resolution: commit the move if the probe is free, else cancel
/// friction for this tick and hold the position.
pub open spec fn m_resolve_x(s: TickModel, grid: Seq<SolidModel>, mx: int, cfg: PhysicsConfig) -> TickModel {
    if occupied(grid, m_probe_x(s, mx, cfg), s.pos_y) {
        TickModel { fr: 0, ..s }
    } else {
        TickModel { pos_x: s.pos_x + mx, ..s }
    }
}

/// The point probed on the Y axis: the leading edge of the move.
pub open spec fn m_probe_y(s: TickModel, my: int, cfg: PhysicsConfig) -> int {
    s.pos_y + my + sgn(my) * cfg.half_block_y
}

/// Y-axis resolution: commit the move and leave the ground if the probe is
/// free, else stand on (or bump against) the solid: grounded, vertical
/// velocity zeroed.
pub open spec fn m_resolve_y(s: TickModel, grid: Seq<SolidModel>, my: int, cfg: PhysicsConfig) -> TickModel {
    if occupied(grid, s.pos_x, m_probe_y(s, my, cfg)) {
        TickModel { grounded: true, vel_y: 0, ..s }
    } else {
        TickModel { pos_y: s.pos_y + my, grounded: false, ..s }
    }
}

/// One whole integrator tick: dash transitions, non-dash control,
/// integration, clamp and dead zone, then axis-separated collision
/// resolution, X before Y.
pub open spec fn tick_model(s: TickModel, grid: Seq<SolidModel>, dt: int, cfg: PhysicsConfig) -> TickModel {
    let s1 = m_dash_transition(s, cfg);
    if dash_cancels(s) {
        s1
    } else {
        let s2 = if s1.status is Dashing { s1 } else { m_control(s1, cfg) };
        let mx = m_move_x(s2, dt);
        let my = m_move_y(s2, dt);
        let s3 = m_update_vel(s2, dt, cfg);
        let s4 = m_dead_zone(s3, cfg);
        let s5 = m_resolve_x(s4, grid, mx, cfg);
        m_resolve_y(s5, grid, my, cfg)
    }
}

/// `n` integrator ticks in a row, the movement intent held fixed.
pub open spec fn run_model(s: TickModel, grid: Seq<SolidModel>, dt: int, cfg: PhysicsConfig, n: nat) -> TickModel
    decreases n,
{
    if n == 0 {
        s
    } else {
        run_model(tick_model(s, grid, dt, cfg), grid, dt, cfg, (n - 1) as nat)
    }
}

/// Ranges under which the executable integrator's arithmetic stays in
/// `i64`. These are machine limits, far outside anything a level reaches.
pub open spec fn wf_state(s: TickModel) -> bool {
    &&& -crate::config::POS_LIMIT <= s.pos_x <= crate::config::POS_LIMIT
    &&& -crate::config::POS_LIMIT <= s.pos_y <= crate::config::POS_LIMIT
    &&& -crate::config::POS_LIMIT <= s.pos_z <= crate::config::POS_LIMIT
    &&& -crate::config::VEL_LIMIT <= s.vel_x <= crate::config::VEL_LIMIT
    &&& -crate::config::VEL_LIMIT <= s.vel_y <= crate::config::VEL_LIMIT
    &&& -crate::config::ACC_LIMIT <= s.acc_x <= crate::config::ACC_LIMIT
    &&& -crate::config::ACC_LIMIT <= s.acc_y <= crate::config::ACC_LIMIT
    &&& -crate::config::ACC_LIMIT <= s.fr <= crate::config::ACC_LIMIT
    &&& -crate::config::ACC_LIMIT <= s.grav <= crate::config::ACC_LIMIT
    &&& -SCALE <= s.dir_x <= SCALE
    &&& -SCALE <= s.dir_y <= SCALE
    &&& 0 <= s.dash_count <= crate::config::COUNT_LIMIT
    &&& 0 <= s.elapsed <= crate::config::TIME_LIMIT
    &&& 0 <= s.duration <= crate::config::TIME_LIMIT
    &&& -crate::config::POS_LIMIT <= s.start_x <= crate::config::POS_LIMIT
    &&& -crate::config::POS_LIMIT <= s.start_y <= crate::config::POS_LIMIT
    &&& -crate::config::POS_LIMIT <= s.start_z <= crate::config::POS_LIMIT
}

} // verus!
