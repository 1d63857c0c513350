//! The per-body components of the movement core and the integrator that
//! advances them one tick: dash transitions, control, integration with
//! clamp and dead zone, and axis-separated collision resolution.

use vstd::prelude::*;

use crate::config::{
    PhysicsConfig, SCALE, FRICTION, GRAVITY_DEFAULT, DEFAULT_DASH_COUNT, DEFAULT_DASH_DURATION,
    POS_LIMIT, VEL_LIMIT, ACC_LIMIT, CFG_LIMIT, DT_LIMIT, TIME_LIMIT,
};
use crate::level::Level;
use crate::math::{
    div_fx, sgn_i64, clamp_i64, abs_i64, dist3_i64, sgn, lemma_mul_bounds, lemma_div_trunc_ratio,
};
use crate::model::{
    TickModel, SolidModel, tick_model, m_dash_transition, m_control, m_move_x, m_move_y,
    m_update_vel, m_dead_zone, m_resolve_x, m_resolve_y, dash_cancels, dash_heading, norm_dir,
    wf_state,
};

verus! {

/// A two-component fixed-point vector.
#[derive(Clone, Copy, PartialEq, Eq, Structural, Debug)]
pub struct Vec2 {
    pub x: i64,
    pub y: i64,
}

/// A three-component fixed-point vector; `z` is the draw layer and never
/// moves.
#[derive(Clone, Copy, PartialEq, Eq, Structural, Debug)]
pub struct Vec3 {
    pub x: i64,
    pub y: i64,
    pub z: i64,
}

/// Axis-aligned bounds of a solid, as half extents.
#[derive(Clone, Copy, PartialEq, Eq, Structural, Debug)]
pub struct HitBox {
    pub half_size: Vec2,
}

/// Current velocity of a body, in world units per second.
#[derive(Clone, Copy, PartialEq, Eq, Structural, Debug)]
pub struct Velocity(pub Vec2);

impl Default for Velocity {
    /// A body spawns at rest.
    fn default() -> (v: Velocity)
        ensures
            v.0.x == 0 && v.0.y == 0,
    {
        Velocity(Vec2 { x: 0, y: 0 })
    }
}

/// Signed friction deceleration applied against horizontal motion.
#[derive(Clone, Copy, PartialEq, Eq, Structural, Debug)]
pub struct Friction(pub i64);

impl Default for Friction {
    fn default() -> (f: Friction)
        ensures
            f.0 == FRICTION,
    {
        Friction(FRICTION)
    }
}

/// Downward gravity acting on a body; zeroed while dashing.
#[derive(Clone, Copy, PartialEq, Eq, Structural, Debug)]
pub struct Gravity(pub i64);

impl Default for Gravity {
    fn default() -> (g: Gravity)
        ensures
            g.0 == GRAVITY_DEFAULT,
    {
        Gravity(GRAVITY_DEFAULT)
    }
}

/// Current acceleration of a body, gravity and friction not included.
#[derive(Clone, Copy, PartialEq, Eq, Structural, Debug)]
pub struct Acceleration(pub Vec2);

impl Default for Acceleration {
    fn default() -> (a: Acceleration)
        ensures
            a.0.x == 0 && a.0.y == 0,
    {
        Acceleration(Vec2 { x: 0, y: 0 })
    }
}

/// Whether the body's last vertical probe found a solid.
#[derive(Clone, Copy, PartialEq, Eq, Structural, Debug)]
pub struct Grounded(pub bool);

/// The states of the dash machine. `Started`, `Finished` and `Cancelled`
/// are resolved within the tick that observes them; only `Ready` and
/// `Dashing` persist across frames.
#[derive(Clone, Copy, PartialEq, Eq, Structural, Debug)]
pub enum DashState {
    Started,
    Dashing,
    Finished,
    Ready,
    Cancelled,
}

impl Default for DashState {
    fn default() -> (s: DashState)
        ensures
            s is Ready,
    {
        DashState::Ready
    }
}

/// A one-shot timer as an elapsed/duration pair of fixed-point seconds.
#[derive(Clone, Copy, PartialEq, Eq, Structural, Debug)]
pub struct DashTimer {
    pub elapsed: i64,
    pub duration: i64,
}

/// The dash ability: charges, the one-shot duration timer, the machine
/// state, and the distance bookkeeping shown to the player.
#[derive(Clone, Copy, PartialEq, Eq, Structural, Debug)]
pub struct Dash {
    pub dash_count: usize,
    pub dash_timer: DashTimer,
    pub status: DashState,
    pub distance: i64,
    pub start_point: Vec3,
}

impl Default for Dash {
    fn default() -> (d: Dash)
        ensures
            d.dash_count == DEFAULT_DASH_COUNT,
            d.dash_timer.elapsed == 0,
            d.dash_timer.duration == DEFAULT_DASH_DURATION,
            d.status is Ready,
            d.distance == 0,
            d.start_point == (Vec3 { x: 0, y: 0, z: 0 }),
    {
        Dash {
            dash_count: DEFAULT_DASH_COUNT,
            dash_timer: DashTimer { elapsed: 0, duration: DEFAULT_DASH_DURATION },
            status: DashState::Ready,
            distance: 0,
            start_point: Vec3 { x: 0, y: 0, z: 0 },
        }
    }
}

/// Per-tick movement intent plus the dash ability it drives.
#[derive(Clone, Copy, PartialEq, Eq, Structural, Debug)]
pub struct Movement {
    pub directional: Vec2,
    pub dash: Dash,
    pub jump: bool,
}

impl Default for Movement {
    fn default() -> (m: Movement)
        ensures
            m.directional.x == 0 && m.directional.y == 0,
            m.dash.dash_count == DEFAULT_DASH_COUNT,
            m.dash.dash_timer.elapsed == 0,
            m.dash.dash_timer.duration == DEFAULT_DASH_DURATION,
            m.dash.status is Ready,
            m.dash.distance == 0,
            m.dash.start_point == (Vec3 { x: 0, y: 0, z: 0 }),
            !m.jump,
    {
        Movement { directional: Vec2 { x: 0, y: 0 }, dash: Dash::default(), jump: false }
    }
}

/// A static solid of the level grid.
#[derive(Debug)]
pub struct Solid {
    pub pos_x: i64,
    pub pos_y: i64,
    pub texture_file: String,
    pub bounds: HitBox,
}

impl View for Solid {
    type V = SolidModel;

    open spec fn view(&self) -> SolidModel {
        SolidModel {
            x: self.pos_x as int,
            y: self.pos_y as int,
            hx: self.bounds.half_size.x as int,
            hy: self.bounds.half_size.y as int,
        }
    }
}

impl Solid {
    /// Coordinate ranges under which containment tests stay in `i64`.
    pub open spec fn wf(&self) -> bool {
        &&& -POS_LIMIT <= self.pos_x <= POS_LIMIT
        &&& -POS_LIMIT <= self.pos_y <= POS_LIMIT
        &&& 0 <= self.bounds.half_size.x <= CFG_LIMIT
        &&& 0 <= self.bounds.half_size.y <= CFG_LIMIT
    }

    /// Whether the point lies within the solid's closed bounds, inclusive
    /// on all four edges.
    pub fn contains(&self, x: i64, y: i64) -> (r: bool)
        requires
            self.wf(),
        ensures
            r == self@.contains(x as int, y as int),
    {
        (self.pos_x - self.bounds.half_size.x) <= x && (self.pos_x + self.bounds.half_size.x) >= x
            && (self.pos_y - self.bounds.half_size.y <= y) && (self.pos_y + self.bounds.half_size.y
            >= y)
    }
}

/// The model state gathered from the components of one body.
pub open spec fn state_of(
    pos: Vec3,
    vel: Velocity,
    accel: Acceleration,
    friction: Friction,
    gravity: Gravity,
    grounded: Grounded,
    movement: Movement,
) -> TickModel {
    TickModel {
        pos_x: pos.x as int,
        pos_y: pos.y as int,
        pos_z: pos.z as int,
        vel_x: vel.0.x as int,
        vel_y: vel.0.y as int,
        acc_x: accel.0.x as int,
        acc_y: accel.0.y as int,
        fr: friction.0 as int,
        grav: gravity.0 as int,
        grounded: grounded.0,
        dir_x: movement.directional.x as int,
        dir_y: movement.directional.y as int,
        jump: movement.jump,
        dash_count: movement.dash.dash_count as int,
        status: movement.dash.status,
        elapsed: movement.dash.dash_timer.elapsed as int,
        duration: movement.dash.dash_timer.duration as int,
        distance: movement.dash.distance as int,
        start_x: movement.dash.start_point.x as int,
        start_y: movement.dash.start_point.y as int,
        start_z: movement.dash.start_point.z as int,
    }
}

/// Direction of a non-zero vector as a fixed-point unit vector.
fn normalize_dir(vx: i64, vy: i64) -> (r: (i64, i64))
    requires
        -VEL_LIMIT <= vx <= VEL_LIMIT,
        -VEL_LIMIT <= vy <= VEL_LIMIT,
        !(vx == 0 && vy == 0),
    ensures
        (r.0 as int, r.1 as int) == norm_dir(vx as int, vy as int),
        -SCALE <= r.0 <= SCALE,
        -SCALE <= r.1 <= SCALE,
{
    let ax = abs_i64(vx) as u64;
    let ay = abs_i64(vy) as u64;
    proof {
        assert((ax as int) * (ax as int) == (vx as int) * (vx as int) && (ax as int) * (ax as int)
            <= 1_000_000_000_000_000_000_000_000int) by (nonlinear_arith)
            requires
                ax == vstd::math::abs(vx as int),
                -VEL_LIMIT <= vx as int <= VEL_LIMIT,
        ;
        assert((ay as int) * (ay as int) == (vy as int) * (vy as int) && (ay as int) * (ay as int)
            <= 1_000_000_000_000_000_000_000_000int) by (nonlinear_arith)
            requires
                ay == vstd::math::abs(vy as int),
                -VEL_LIMIT <= vy as int <= VEL_LIMIT,
        ;
        assert((ax as int) * (ax as int) + (ay as int) * (ay as int) >= 1) by (nonlinear_arith)
            requires
                ax >= 1 || ay >= 1,
                ax >= 0,
                ay >= 0,
        ;
    }
    let sq: u128 = (ax as u128) * (ax as u128) + (ay as u128) * (ay as u128);
    let n64 = crate::math::isqrt_u128(sq);
    proof {
        assert(n64 >= 1) by (nonlinear_arith)
            requires
                sq as int >= 1,
                (sq as int) < ((n64 as int) + 1) * ((n64 as int) + 1),
                n64 >= 0,
        ;
        assert(n64 <= 2_000_000_000_000) by (nonlinear_arith)
            requires
                (n64 as int) * (n64 as int) <= sq as int,
                sq as int <= 2_000_000_000_000_000_000_000_000int,
                n64 >= 0,
        ;
        assert(-(n64 as int) <= vx as int <= n64 as int && -(n64 as int) <= vy as int <= n64 as int)
            by (nonlinear_arith)
            requires
                (vx as int) * (vx as int) + (vy as int) * (vy as int) < ((n64 as int) + 1) * ((n64
                    as int) + 1),
                (vx as int) * (vx as int) >= 0,
                (vy as int) * (vy as int) >= 0,
                n64 >= 0,
        ;
        lemma_mul_bounds(vx as int, SCALE as int, n64 as int, SCALE as int);
        lemma_mul_bounds(vy as int, SCALE as int, n64 as int, SCALE as int);
        lemma_div_trunc_ratio((vx as int) * (SCALE as int), n64 as int, SCALE as int);
        lemma_div_trunc_ratio((vy as int) * (SCALE as int), n64 as int, SCALE as int);
        lemma_mul_bounds(vx as int, SCALE as int, VEL_LIMIT as int, SCALE as int);
        lemma_mul_bounds(vy as int, SCALE as int, VEL_LIMIT as int, SCALE as int);
    }
    let n = n64 as i64;
    (div_fx(vx * SCALE, n), div_fx(vy * SCALE, n))
}

/// Advance the dash timer by the tick's elapsed time: while dashing the
/// one-shot timer runs, and when it elapses the dash finishes and the
/// timer resets for reuse. All other state is untouched.
pub fn dash_timer(movement: &mut Movement, delta: i64)
    requires
        0 <= delta <= DT_LIMIT,
        0 <= old(movement).dash.dash_timer.elapsed <= TIME_LIMIT,
        0 <= old(movement).dash.dash_timer.duration <= TIME_LIMIT,
    ensures
        old(movement).dash.status is Dashing && old(movement).dash.dash_timer.elapsed + delta
            >= old(movement).dash.dash_timer.duration ==> final(movement).dash.status is Finished
            && final(movement).dash.dash_timer.elapsed == 0,
        old(movement).dash.status is Dashing && old(movement).dash.dash_timer.elapsed + delta
            < old(movement).dash.dash_timer.duration ==> final(movement).dash.status is Dashing
            && final(movement).dash.dash_timer.elapsed == old(movement).dash.dash_timer.elapsed
            + delta,
        !(old(movement).dash.status is Dashing) ==> *final(movement) == *old(movement),
        final(movement).dash.dash_timer.duration == old(movement).dash.dash_timer.duration,
        final(movement).dash.dash_count == old(movement).dash.dash_count,
        final(movement).dash.distance == old(movement).dash.distance,
        final(movement).dash.start_point == old(movement).dash.start_point,
        final(movement).directional == old(movement).directional,
        final(movement).jump == old(movement).jump,
{
    if matches!(movement.dash.status, DashState::Dashing) {
        let elapsed = movement.dash.dash_timer.elapsed + delta;
        if elapsed >= movement.dash.dash_timer.duration {
            movement.dash.status = DashState::Finished;
            movement.dash.dash_timer.elapsed = 0;
        } else {
            movement.dash.dash_timer.elapsed = elapsed;
        }
    }
}

/// One integrator tick for the controlled body, realising `tick_model`
/// exactly: dash transition handling (which may cancel the tick), non-dash
/// control, semi-implicit integration, the velocity clamp and dead-zone
/// snap, then collision resolution on X and then Y against the level grid.
pub fn update_physics(
    pos: &mut Vec3,
    vel: &mut Velocity,
    accel: &mut Acceleration,
    friction: &mut Friction,
    gravity: &mut Gravity,
    grounded: &mut Grounded,
    movement: &mut Movement,
    level: &Level,
    dt: i64,
    cfg: &PhysicsConfig,
)
    requires
        wf_state(
            state_of(
                *old(pos),
                *old(vel),
                *old(accel),
                *old(friction),
                *old(gravity),
                *old(grounded),
                *old(movement),
            ),
        ),
        cfg.wf(),
        level.wf(),
        0 <= dt <= DT_LIMIT,
    ensures
        state_of(
            *final(pos),
            *final(vel),
            *final(accel),
            *final(friction),
            *final(gravity),
            *final(grounded),
            *final(movement),
        ) == tick_model(
            state_of(
                *old(pos),
                *old(vel),
                *old(accel),
                *old(friction),
                *old(gravity),
                *old(grounded),
                *old(movement),
            ),
            level.grid_view(),
            dt as int,
            *cfg,
        ),
{
    let ghost s0 = state_of(*pos, *vel, *accel, *friction, *gravity, *grounded, *movement);
    let ghost s1 = m_dash_transition(s0, *cfg);

    // Dash transition handling; may end the tick on a cancelled dash.
    match movement.dash.status {
        DashState::Started => {
            if movement.dash.dash_count == 0 {
                movement.dash.status = DashState::Cancelled;
                proof {
                    assert(dash_cancels(s0));
                    assert(state_of(*pos, *vel, *accel, *friction, *gravity, *grounded, *movement)
                        == s1);
                }
                return;
            }
            movement.dash.start_point = *pos;
            let heading: (i64, i64) = if movement.directional.x == 0 && movement.directional.y == 0 {
                if vel.0.x == 0 && vel.0.y == 0 {
                    (SCALE, 0)
                } else {
                    normalize_dir(vel.0.x, vel.0.y)
                }
            } else {
                normalize_dir(movement.directional.x, movement.directional.y)
            };
            proof {
                assert((heading.0 as int, heading.1 as int) == dash_heading(s0));
            }
            movement.dash.status = DashState::Dashing;
            movement.dash.dash_count = movement.dash.dash_count - 1;
            let back_x: i64 = -heading.0;
            let back_y: i64 = -heading.1;
            proof {
                lemma_mul_bounds(heading.0 as int, cfg.dash_vel as int, SCALE as int, CFG_LIMIT as int);
                lemma_mul_bounds(heading.1 as int, cfg.dash_vel as int, SCALE as int, CFG_LIMIT as int);
                lemma_mul_bounds(back_x as int, cfg.dash_accel as int, SCALE as int, CFG_LIMIT as int);
                lemma_mul_bounds(back_y as int, cfg.dash_accel as int, SCALE as int, CFG_LIMIT as int);
            }
            vel.0.x = div_fx(heading.0 * cfg.dash_vel, SCALE);
            vel.0.y = div_fx(heading.1 * cfg.dash_vel, SCALE);
            accel.0.x = div_fx(back_x * cfg.dash_accel, SCALE);
            accel.0.y = div_fx(back_y * cfg.dash_accel, SCALE);
            gravity.0 = 0;
            friction.0 = 0;
        },
        DashState::Finished => {
            movement.dash.distance = dist3_i64(
                movement.dash.start_point.x,
                movement.dash.start_point.y,
                movement.dash.start_point.z,
                pos.x,
                pos.y,
                pos.z,
            );
            movement.dash.status = DashState::Ready;
            gravity.0 = cfg.gravity;
            accel.0.y = 0;
        },
        DashState::Cancelled => {
            movement.dash.status = DashState::Ready;
        },
        _ => {},
    }
    proof {
        assert(state_of(*pos, *vel, *accel, *friction, *gravity, *grounded, *movement) == s1);
    }

    // Non-dash control: charge refill, jump, steering or friction.
    let ghost s2 = if s1.status is Dashing {
        s1
    } else {
        m_control(s1, *cfg)
    };
    if !matches!(movement.dash.status, DashState::Dashing) {
        if grounded.0 {
            movement.dash.dash_count = cfg.dash_count;
            if movement.jump {
                vel.0.y = cfg.jump_vel;
                movement.jump = false;
            }
        }
        if movement.directional.x != 0 {
            proof {
                lemma_mul_bounds(sgn(movement.directional.x as int), cfg.accel as int, 1, CFG_LIMIT as int);
            }
            accel.0.x = sgn_i64(movement.directional.x) * cfg.accel;
            friction.0 = 0;
        } else {
            proof {
                lemma_mul_bounds(sgn(vel.0.x as int), cfg.friction as int, 1, CFG_LIMIT as int);
            }
            accel.0.x = 0;
            friction.0 = sgn_i64(vel.0.x) * cfg.friction;
        }
    }
    proof {
        assert(state_of(*pos, *vel, *accel, *friction, *gravity, *grounded, *movement) == s2);
    }

    // Displacements of this tick, before the velocity update.
    let net_x = accel.0.x - friction.0;
    let net_y = accel.0.y - gravity.0;
    proof {
        lemma_mul_bounds(vel.0.x as int, dt as int, VEL_LIMIT as int, DT_LIMIT as int);
        lemma_mul_bounds(vel.0.y as int, dt as int, VEL_LIMIT as int, DT_LIMIT as int);
        lemma_mul_bounds(net_x as int, dt as int, 2 * ACC_LIMIT as int, DT_LIMIT as int);
        lemma_mul_bounds(net_y as int, dt as int, 2 * ACC_LIMIT as int, DT_LIMIT as int);
        lemma_mul_bounds(
            net_x as int * dt as int,
            dt as int,
            2 * ACC_LIMIT as int * DT_LIMIT as int,
            DT_LIMIT as int,
        );
        lemma_mul_bounds(
            net_y as int * dt as int,
            dt as int,
            2 * ACC_LIMIT as int * DT_LIMIT as int,
            DT_LIMIT as int,
        );
    }
    let move_x = div_fx(vel.0.x * dt, SCALE) + div_fx(net_x * dt * dt, 2 * SCALE * SCALE);
    let move_y = div_fx(vel.0.y * dt, SCALE) + div_fx(net_y * dt * dt, 2 * SCALE * SCALE);
    let ghost mx = m_move_x(s2, dt as int);
    let ghost my = m_move_y(s2, dt as int);
    proof {
        assert(move_x == mx && move_y == my);
    }

    // Velocity update, the horizontal clamp outside a dash.
    vel.0.x = vel.0.x + div_fx(net_x * dt, SCALE);
    if !matches!(movement.dash.status, DashState::Dashing) {
        vel.0.x = clamp_i64(vel.0.x, -cfg.max_vel, cfg.max_vel);
    }
    vel.0.y = vel.0.y + div_fx(net_y * dt, SCALE);
    let ghost s3 = m_update_vel(s2, dt as int, *cfg);
    proof {
        assert(state_of(*pos, *vel, *accel, *friction, *gravity, *grounded, *movement) == s3);
    }

    // Dead-zone snap to an exact stop.
    if vel.0.x >= -cfg.min_vel && vel.0.x <= cfg.min_vel && movement.directional.x == 0
        && !matches!(movement.dash.status, DashState::Dashing) {
        vel.0.x = 0;
        accel.0.x = 0;
        friction.0 = 0;
    }
    let ghost s4 = m_dead_zone(s3, *cfg);
    proof {
        assert(state_of(*pos, *vel, *accel, *friction, *gravity, *grounded, *movement) == s4);
    }

    // X axis: commit the move if the leading edge is free, else hold the
    // position and cancel friction for this tick.
    proof {
        lemma_mul_bounds(sgn(move_x as int), cfg.half_block_x as int, 1, CFG_LIMIT as int);
        lemma_mul_bounds(sgn(move_y as int), cfg.half_block_y as int, 1, CFG_LIMIT as int);
    }
    let probe_x: i64 = pos.x + move_x + sgn_i64(move_x) * cfg.half_block_x;
    if level.query_point(probe_x, pos.y).is_none() {
        pos.x = pos.x + move_x;
    } else {
        friction.0 = 0;
    }
    let ghost s5 = m_resolve_x(s4, level.grid_view(), mx, *cfg);
    proof {
        assert(state_of(*pos, *vel, *accel, *friction, *gravity, *grounded, *movement) == s5);
    }

    // Y axis: commit the move and leave the ground if the leading edge is
    // free, else stand on the solid.
    let probe_y: i64 = pos.y + move_y + sgn_i64(move_y) * cfg.half_block_y;
    if level.query_point(pos.x, probe_y).is_none() {
        pos.y = pos.y + move_y;
        grounded.0 = false;
    } else {
        grounded.0 = true;
        vel.0.y = 0;
    }
    proof {
        assert(state_of(*pos, *vel, *accel, *friction, *gravity, *grounded, *movement)
            == m_resolve_y(s5, level.grid_view(), my, *cfg));
    }
}

} // verus!
