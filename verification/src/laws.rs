//! Laws of the movement core, proved over the tick model. Each holds of
//! the executable integrator through its exact `tick_model` contract.

use vstd::prelude::*;
use vstd::arithmetic::mul::lemma_mul_inequality;
use vstd::math::abs;

use crate::config::{PhysicsConfig, SCALE};
use crate::math::{
    sgn, div_trunc, lemma_div_trunc_bounds, lemma_div_trunc_ordered, lemma_div_trunc_abs_le,
};
use crate::model::{
    TickModel, SolidModel, tick_model, run_model, m_dash_transition, m_control, m_move_x,
    m_move_y, m_probe_x, m_probe_y, m_update_vel, m_dead_zone, m_resolve_x, m_resolve_y,
    dash_cancels, occupied,
};
use crate::physics::DashState;

verus! {

/// Outside a dash, horizontal speed after the tick's clamp lies within the
/// configured bound. A tick that ends `Cancelled` performed no physics, so
/// only the ticks that ran the clamp are spoken of.
pub proof fn lemma_speed_clamped(s: TickModel, grid: Seq<SolidModel>, dt: int, cfg: PhysicsConfig)
    requires
        cfg.max_vel >= 0,
    ensures
        !(tick_model(s, grid, dt, cfg).status is Dashing) && !(tick_model(
            s,
            grid,
            dt,
            cfg,
        ).status is Cancelled) ==> -cfg.max_vel <= tick_model(s, grid, dt, cfg).vel_x
            <= cfg.max_vel,
{
}

/// Starting a dash with no charges left always cancels, and the tick does
/// nothing else: the whole state — velocity, acceleration, position, the
/// recorded start point, the charge count — is exactly the entry state
/// with the dash marked `Cancelled`.
pub proof fn lemma_dash_cancelled_is_inert(
    s: TickModel,
    grid: Seq<SolidModel>,
    dt: int,
    cfg: PhysicsConfig,
)
    requires
        s.status is Started,
        s.dash_count == 0,
    ensures
        tick_model(s, grid, dt, cfg) == (TickModel { status: DashState::Cancelled, ..s }),
{
}

/// The dash charge count never goes negative, and no tick spends more
/// than the one charge a dash start takes; a count within the configured
/// maximum stays within it.
pub proof fn lemma_charges_never_negative(
    s: TickModel,
    grid: Seq<SolidModel>,
    dt: int,
    cfg: PhysicsConfig,
)
    requires
        s.dash_count >= 0,
    ensures
        tick_model(s, grid, dt, cfg).dash_count >= 0,
        s.dash_count <= cfg.dash_count ==> tick_model(s, grid, dt, cfg).dash_count
            >= s.dash_count - 1,
        s.dash_count <= cfg.dash_count ==> tick_model(s, grid, dt, cfg).dash_count
            <= cfg.dash_count,
{
}

/// Charges are refilled to the configured maximum exactly when the body
/// was grounded and the dash state, after transition handling, is not
/// `Dashing`; every other tick leaves the count as transition handling
/// left it (one charge is spent when a dash starts).
pub proof fn lemma_grounded_refills_charges(
    s: TickModel,
    grid: Seq<SolidModel>,
    dt: int,
    cfg: PhysicsConfig,
)
    ensures
        !dash_cancels(s) && !(m_dash_transition(s, cfg).status is Dashing) && s.grounded
            ==> tick_model(s, grid, dt, cfg).dash_count == cfg.dash_count,
        !dash_cancels(s) && (m_dash_transition(s, cfg).status is Dashing || !s.grounded)
            ==> tick_model(s, grid, dt, cfg).dash_count == m_dash_transition(s, cfg).dash_count,
        dash_cancels(s) ==> tick_model(s, grid, dt, cfg).dash_count == s.dash_count,
{
}

/// Axis collision on X: when a solid of the grid contains the tick's
/// horizontal probe point (the leading edge of the move), the horizontal
/// position does not advance; when the probe is free, the move commits
/// whole. A cancelled dash also holds the position.
pub proof fn lemma_wall_stops_x(s: TickModel, grid: Seq<SolidModel>, dt: int, cfg: PhysicsConfig)
    ensures
        ({
            let s1 = m_dash_transition(s, cfg);
            let s2 = if s1.status is Dashing {
                s1
            } else {
                m_control(s1, cfg)
            };
            let mx = m_move_x(s2, dt);
            &&& dash_cancels(s) ==> tick_model(s, grid, dt, cfg).pos_x == s.pos_x
            &&& !dash_cancels(s) && occupied(grid, m_probe_x(s2, mx, cfg), s.pos_y) ==> tick_model(
                s,
                grid,
                dt,
                cfg,
            ).pos_x == s.pos_x
            &&& !dash_cancels(s) && !occupied(grid, m_probe_x(s2, mx, cfg), s.pos_y)
                ==> tick_model(s, grid, dt, cfg).pos_x == s.pos_x + mx
        }),
{
}

/// The tick that observes a finished dash records as the travelled
/// distance exactly the Euclidean distance (rounded down) between the
/// recorded start point and the current position, and resolves the dash
/// back to ready.
pub proof fn lemma_finished_dash_records_distance(
    s: TickModel,
    grid: Seq<SolidModel>,
    dt: int,
    cfg: PhysicsConfig,
)
    requires
        s.status is Finished,
    ensures
        tick_model(s, grid, dt, cfg).distance == crate::math::dist3(
            s.start_x,
            s.start_y,
            s.start_z,
            s.pos_x,
            s.pos_y,
            s.pos_z,
        ),
        tick_model(s, grid, dt, cfg).status is Ready,
{
}

/// The farthest one resting tick can carry the body horizontally.
pub open spec fn rest_step(dt: int, cfg: PhysicsConfig) -> int {
    div_trunc(cfg.max_vel * dt, SCALE as int) + div_trunc(
        cfg.friction * dt * dt,
        2 * SCALE * SCALE,
    )
}

/// The (negative) vertical displacement a resting tick attempts under
/// gravity.
pub open spec fn rest_drop(dt: int, cfg: PhysicsConfig) -> int {
    div_trunc(0 - cfg.gravity * dt * dt, 2 * SCALE * SCALE)
}

/// The horizontal span the body can reach while it coasts to a stop.
pub open spec fn rest_region(s: TickModel, dt: int, cfg: PhysicsConfig, x: int) -> bool {
    s.pos_x - ((abs(s.vel_x) + 1) * rest_step(dt, cfg) + cfg.half_block_x) <= x <= s.pos_x + (
    (abs(s.vel_x) + 1) * rest_step(dt, cfg) + cfg.half_block_x)
}

/// The height the vertical probe of a resting tick lands on.
pub open spec fn floor_level(s: TickModel, dt: int, cfg: PhysicsConfig) -> int {
    s.pos_y + rest_drop(dt, cfg) - cfg.half_block_y
}

/// The body's own row is open air, and the probed row below is solid,
/// across the span the body can still reach.
pub open spec fn rest_geometry(s: TickModel, grid: Seq<SolidModel>, dt: int, cfg: PhysicsConfig) -> bool {
    &&& forall|x: int| rest_region(s, dt, cfg, x) ==> !(#[trigger] occupied(grid, x, s.pos_y))
    &&& forall|x: int| rest_region(s, dt, cfg, x) ==> #[trigger] occupied(
        grid,
        x,
        floor_level(s, dt, cfg),
    )
}

/// A grounded body with no intent, no jump request and an idle dash.
pub open spec fn resting_core(s: TickModel, cfg: PhysicsConfig) -> bool {
    &&& s.dir_x == 0 && s.dir_y == 0
    &&& !s.jump
    &&& s.status is Ready
    &&& s.grounded
    &&& s.vel_y == 0
    &&& s.acc_y == 0
    &&& s.grav == cfg.gravity
    &&& -cfg.max_vel <= s.vel_x <= cfg.max_vel
}

/// Configuration and tick-length ranges under which coasting converges:
/// friction takes at least one sub-unit of speed per tick but never
/// overshoots past the dead zone, and gravity presses the vertical probe
/// at least one sub-unit down.
pub open spec fn rest_conds(dt: int, cfg: PhysicsConfig) -> bool {
    &&& 1 <= dt
    &&& 0 <= cfg.min_vel <= cfg.max_vel
    &&& 0 <= cfg.friction
    &&& 0 <= cfg.gravity
    &&& 0 <= cfg.half_block_x
    &&& 0 <= cfg.half_block_y
    &&& cfg.friction * dt >= SCALE
    &&& div_trunc(cfg.friction * dt, SCALE as int) <= cfg.min_vel
    &&& cfg.gravity * dt * dt >= 2 * SCALE * SCALE
}

/// One tick of a resting body: it stays resting on the same row, friction
/// takes at least `div_trunc(friction * dt, SCALE)` off the horizontal
/// speed or the dead zone snaps it to zero, and a body already stopped
/// only has its charges refilled and its steering state cleared.
pub proof fn lemma_rest_tick(s: TickModel, grid: Seq<SolidModel>, dt: int, cfg: PhysicsConfig)
    requires
        resting_core(s, cfg),
        rest_conds(dt, cfg),
        rest_geometry(s, grid, dt, cfg),
    ensures
        ({
            let t = tick_model(s, grid, dt, cfg);
            let fdt = div_trunc(cfg.friction * dt, SCALE as int);
            &&& resting_core(t, cfg)
            &&& rest_geometry(t, grid, dt, cfg)
            &&& t.pos_y == s.pos_y
            &&& t.grounded
            &&& abs(t.vel_x) <= abs(s.vel_x)
            &&& (s.vel_x != 0 ==> t.vel_x == 0 || abs(t.vel_x) <= abs(s.vel_x) - fdt)
            &&& (s.vel_x == 0 ==> t == (TickModel {
                acc_x: 0,
                fr: 0,
                dash_count: cfg.dash_count as int,
                ..s
            }))
        }),
{
    let t = tick_model(s, grid, dt, cfg);
    let step = rest_step(dt, cfg);
    let bound = (abs(s.vel_x) + 1) * step + cfg.half_block_x;
    let ff = cfg.friction * dt;
    let gg = cfg.gravity * dt * dt;
    let fdt = div_trunc(ff, SCALE as int);
    let s1 = m_dash_transition(s, cfg);
    assert(s1 == s);
    let s2 = m_control(s1, cfg);
    let mx = m_move_x(s2, dt);
    let my = m_move_y(s2, dt);

    // The step bound is nonnegative and at most the region's half width.
    lemma_mul_inequality(0, cfg.max_vel as int, dt);
    lemma_mul_inequality(0, ff, dt);
    lemma_div_trunc_bounds(cfg.max_vel * dt, SCALE as int);
    lemma_div_trunc_bounds(ff * dt, 2 * SCALE * SCALE);
    assert(step >= 0);
    lemma_mul_inequality(1, abs(s.vel_x) as int + 1, step);
    assert(step <= (abs(s.vel_x) + 1) * step);

    // The vertical probe lands exactly on the floor row.
    assert(s2.vel_y * dt == 0 && (s2.acc_y - s2.grav) * dt * dt == 0 - gg) by (nonlinear_arith)
        requires
            s2.vel_y == 0,
            s2.acc_y == 0,
            s2.grav == cfg.gravity,
            gg == cfg.gravity * dt * dt,
    ;
    lemma_div_trunc_ordered(2 * SCALE * SCALE, gg, 2 * SCALE * SCALE);
    let drop = rest_drop(dt, cfg);
    assert(drop <= -1);
    assert(my == drop);

    // Friction's bite on the velocity, per sign of the current speed.
    lemma_div_trunc_bounds(ff, SCALE as int);
    lemma_div_trunc_ordered(SCALE as int, ff, SCALE as int);
    assert(fdt >= 1);
    let step2 = div_trunc(cfg.friction * dt * dt, 2 * SCALE * SCALE);
    lemma_div_trunc_bounds(cfg.friction * dt * dt, 2 * SCALE * SCALE);
    if s.vel_x > 0 {
        assert(sgn(s.vel_x as int) == 1);
        assert(s2.fr == cfg.friction && s2.acc_x == 0) by (nonlinear_arith)
            requires
                s2.fr == sgn(s.vel_x as int) * cfg.friction,
                sgn(s.vel_x as int) == 1,
                s2.acc_x == 0,
        ;
        assert((s2.acc_x - s2.fr) * dt == 0 - ff && (s2.acc_x - s2.fr) * dt * dt == 0 - cfg.friction
            * dt * dt) by (nonlinear_arith)
            requires
                s2.acc_x == 0,
                s2.fr == cfg.friction,
                ff == cfg.friction * dt,
        ;
        assert(div_trunc((s2.acc_x - s2.fr) * dt, SCALE as int) == -fdt);
        assert(div_trunc((s2.acc_x - s2.fr) * dt * dt, 2 * SCALE * SCALE) == -step2);
    } else if s.vel_x < 0 {
        assert(sgn(s.vel_x as int) == -1);
        assert(s2.fr == 0 - cfg.friction && s2.acc_x == 0) by (nonlinear_arith)
            requires
                s2.fr == sgn(s.vel_x as int) * cfg.friction,
                sgn(s.vel_x as int) == -1,
                s2.acc_x == 0,
        ;
        assert((s2.acc_x - s2.fr) * dt == ff && (s2.acc_x - s2.fr) * dt * dt == cfg.friction * dt
            * dt) by (nonlinear_arith)
            requires
                s2.acc_x == 0,
                s2.fr == 0 - cfg.friction,
                ff == cfg.friction * dt,
        ;
        assert(div_trunc((s2.acc_x - s2.fr) * dt, SCALE as int) == fdt);
        assert(div_trunc((s2.acc_x - s2.fr) * dt * dt, 2 * SCALE * SCALE) == step2);
    } else {
        assert(sgn(s.vel_x as int) == 0);
        assert(s2.fr == 0 && s2.acc_x == 0) by (nonlinear_arith)
            requires
                s2.fr == sgn(s.vel_x as int) * cfg.friction,
                sgn(s.vel_x as int) == 0,
                s2.acc_x == 0,
        ;
        assert((s2.acc_x - s2.fr) * dt == 0 && (s2.acc_x - s2.fr) * dt * dt == 0)
            by (nonlinear_arith)
            requires
                s2.acc_x == 0,
                s2.fr == 0,
        ;
    }

    // The horizontal move is within one step.
    lemma_mul_inequality(s.vel_x, cfg.max_vel as int, dt);
    lemma_mul_inequality(-(cfg.max_vel as int), s.vel_x, dt);
    assert((-(cfg.max_vel as int)) * dt == -(cfg.max_vel * dt)) by (nonlinear_arith);
    lemma_div_trunc_abs_le(s.vel_x * dt, cfg.max_vel * dt, SCALE as int);
    lemma_div_trunc_bounds(s.vel_x * dt, SCALE as int);
    assert(-step <= mx <= step);

    // The X probe is free, so the move commits; the Y probe hits the
    // floor, so the body stays grounded on its row.
    let s3 = m_update_vel(s2, dt, cfg);
    let s4 = m_dead_zone(s3, cfg);
    let s5 = m_resolve_x(s4, grid, mx, cfg);
    assert(t == m_resolve_y(s5, grid, my, cfg));
    assert(-1 <= sgn(mx) <= 1);
    assert(-cfg.half_block_x <= sgn(mx) * cfg.half_block_x <= cfg.half_block_x)
        by (nonlinear_arith)
        requires
            -1 <= sgn(mx) <= 1,
            cfg.half_block_x >= 0,
    ;
    let probe = m_probe_x(s4, mx, cfg);
    assert(s.pos_x - bound <= probe <= s.pos_x + bound);
    assert(rest_region(s, dt, cfg, probe));
    assert(!occupied(grid, probe, s.pos_y));
    assert(t.pos_x == s.pos_x + mx);
    assert(sgn(my) == -1);
    assert(sgn(my) * cfg.half_block_y == 0 - cfg.half_block_y) by (nonlinear_arith)
        requires
            sgn(my) == -1,
    ;
    assert(m_probe_y(s5, my, cfg) == floor_level(s, dt, cfg));
    assert(rest_region(s, dt, cfg, s.pos_x + mx));
    assert(occupied(grid, s.pos_x + mx, floor_level(s, dt, cfg)));
    assert(t.pos_y == s.pos_y && t.grounded && t.vel_y == 0);

    // The dead zone snaps slow coasting to zero; otherwise exactly one
    // bite of friction came off the speed.
    if s.vel_x > 0 {
        assert(s3.vel_x == s.vel_x - fdt);
        assert(t.vel_x == 0 || (t.vel_x == s.vel_x - fdt && t.vel_x > cfg.min_vel));
    } else if s.vel_x < 0 {
        assert(s3.vel_x == s.vel_x + fdt);
        assert(t.vel_x == 0 || (t.vel_x == s.vel_x + fdt && t.vel_x < -cfg.min_vel));
    } else {
        assert(t.vel_x == 0);
        assert(t == (TickModel { acc_x: 0, fr: 0, dash_count: cfg.dash_count as int, ..s }));
    }

    // The span still reachable after the tick sits inside the old one.
    assert forall|x: int| rest_region(t, dt, cfg, x) implies rest_region(s, dt, cfg, x) by {
        if t.vel_x == 0 {
            assert(abs(t.vel_x) == 0);
            if s.vel_x == 0 {
                assert(t.pos_x == s.pos_x && abs(s.vel_x) == 0);
            } else {
                lemma_mul_inequality(2, abs(s.vel_x) as int + 1, step);
                assert((0 + 1) * step + step == 2 * step) by (nonlinear_arith);
            }
        } else {
            assert(abs(t.vel_x) as int + 1 <= abs(s.vel_x) as int);
            lemma_mul_inequality(abs(t.vel_x) as int + 2, abs(s.vel_x) as int + 1, step);
            assert((abs(t.vel_x) as int + 1) * step + step == (abs(t.vel_x) as int + 2) * step)
                by (nonlinear_arith);
        }
    }
    assert forall|x: int| rest_region(t, dt, cfg, x) implies !(#[trigger] occupied(
        grid,
        x,
        t.pos_y,
    )) by {
        assert(rest_region(s, dt, cfg, x));
        assert(!occupied(grid, x, s.pos_y));
    }
    assert forall|x: int| rest_region(t, dt, cfg, x) implies #[trigger] occupied(
        grid,
        x,
        floor_level(t, dt, cfg),
    ) by {
        assert(rest_region(s, dt, cfg, x));
        assert(occupied(grid, x, floor_level(s, dt, cfg)));
    }
}

/// A body steering rightward with an idle dash and speed within the clamp.
pub open spec fn accel_inv(s: TickModel, cfg: PhysicsConfig) -> bool {
    &&& s.status is Ready
    &&& s.dir_x >= 1
    &&& 0 <= s.vel_x <= cfg.max_vel
}

/// Tick-length and configuration ranges under which steering visibly
/// accelerates: the acceleration adds at least one sub-unit of speed and
/// of displacement per tick.
pub open spec fn accel_conds(dt: int, cfg: PhysicsConfig) -> bool {
    &&& 1 <= dt
    &&& 0 <= cfg.max_vel
    &&& 0 <= cfg.accel
    &&& cfg.accel * dt >= SCALE
    &&& cfg.accel * dt * dt >= 2 * SCALE * SCALE
}

/// One tick of rightward steering with no obstacle: the position strictly
/// advances and the speed grows toward the clamp, never past it.
pub proof fn lemma_accel_tick(s: TickModel, grid: Seq<SolidModel>, dt: int, cfg: PhysicsConfig)
    requires
        accel_inv(s, cfg),
        accel_conds(dt, cfg),
        grid.len() == 0,
    ensures
        ({
            let t = tick_model(s, grid, dt, cfg);
            &&& accel_inv(t, cfg)
            &&& t.dir_x == s.dir_x
            &&& t.pos_x >= s.pos_x + 1
            &&& s.vel_x <= t.vel_x <= cfg.max_vel
            &&& (s.vel_x < cfg.max_vel ==> t.vel_x > s.vel_x)
        }),
{
    let t = tick_model(s, grid, dt, cfg);
    let s1 = m_dash_transition(s, cfg);
    assert(s1 == s);
    let s2 = m_control(s1, cfg);
    assert(sgn(s2.dir_x) == 1);
    assert(s2.acc_x == cfg.accel && s2.fr == 0) by (nonlinear_arith)
        requires
            s2.acc_x == sgn(s2.dir_x) * cfg.accel,
            sgn(s2.dir_x) == 1,
            s2.fr == 0,
    ;
    assert((s2.acc_x - s2.fr) * dt == cfg.accel * dt && (s2.acc_x - s2.fr) * dt * dt == cfg.accel
        * dt * dt) by (nonlinear_arith)
        requires
            s2.acc_x == cfg.accel,
            s2.fr == 0,
    ;
    let mx = m_move_x(s2, dt);
    lemma_mul_inequality(0, s.vel_x, dt);
    assert(0int * dt == 0) by (nonlinear_arith);
    lemma_div_trunc_bounds(s.vel_x * dt, SCALE as int);
    lemma_div_trunc_ordered(2 * SCALE * SCALE, cfg.accel * dt * dt, 2 * SCALE * SCALE);
    assert(mx >= 1);
    let adt = div_trunc(cfg.accel * dt, SCALE as int);
    lemma_div_trunc_ordered(SCALE as int, cfg.accel * dt, SCALE as int);
    assert(adt >= 1);
    let s3 = m_update_vel(s2, dt, cfg);
    assert(s3.vel_x == crate::math::clamp(s.vel_x + adt, -cfg.max_vel as int, cfg.max_vel as int));
    let s4 = m_dead_zone(s3, cfg);
    assert(s4.vel_x == s3.vel_x);
    let s5 = m_resolve_x(s4, grid, mx, cfg);
    assert(!occupied(grid, m_probe_x(s4, mx, cfg), s4.pos_y));
    assert(s5.pos_x == s.pos_x + mx);
    assert(t == m_resolve_y(s5, grid, m_move_y(s2, dt), cfg));
    assert(!occupied(grid, s5.pos_x, m_probe_y(s5, m_move_y(s2, dt), cfg)));
}

/// What one tick of the rightward-steering scenario promises: the position
/// strictly advances and the speed climbs toward the clamp, never past it.
pub open spec fn accel_pair_ok(a: TickModel, b: TickModel, cfg: PhysicsConfig) -> bool {
    &&& b.pos_x >= a.pos_x + 1
    &&& a.vel_x <= b.vel_x <= cfg.max_vel
    &&& (a.vel_x < cfg.max_vel ==> b.vel_x > a.vel_x)
}

/// Scenario law: steering rightward from speed within the clamp, over a
/// level with no obstacles, the horizontal position strictly increases on
/// every tick and the horizontal speed climbs monotonically toward the
/// clamp, strictly while below it and never past it.
#[verifier::rlimit(100)]
pub proof fn lemma_accel_run(s: TickModel, grid: Seq<SolidModel>, dt: int, cfg: PhysicsConfig, n: nat)
    requires
        accel_inv(s, cfg),
        accel_conds(dt, cfg),
        grid.len() == 0,
    ensures
        accel_inv(run_model(s, grid, dt, cfg, n), cfg),
        forall|m: nat| m < n ==> accel_pair_ok(
            #[trigger] run_model(s, grid, dt, cfg, m),
            run_model(s, grid, dt, cfg, (m + 1) as nat),
            cfg,
        ),
    decreases n,
{
    if n == 0 {
    } else {
        lemma_accel_tick(s, grid, dt, cfg);
        let t = tick_model(s, grid, dt, cfg);
        lemma_accel_run(t, grid, dt, cfg, (n - 1) as nat);
        assert(run_model(s, grid, dt, cfg, n) == run_model(t, grid, dt, cfg, (n - 1) as nat));
        assert(accel_pair_ok(s, t, cfg));
        assert forall|m: nat| m < n implies accel_pair_ok(
            #[trigger] run_model(s, grid, dt, cfg, m),
            run_model(s, grid, dt, cfg, (m + 1) as nat),
            cfg,
        ) by {
            if m == 0 {
                assert(run_model(s, grid, dt, cfg, 0) == s);
                assert(run_model(s, grid, dt, cfg, 1nat) == run_model(t, grid, dt, cfg, 0nat));
                assert(run_model(t, grid, dt, cfg, 0nat) == t);
            } else {
                let mm = (m - 1) as nat;
                assert(run_model(s, grid, dt, cfg, m) == run_model(t, grid, dt, cfg, mm));
                assert(run_model(s, grid, dt, cfg, (m + 1) as nat) == run_model(
                    t,
                    grid,
                    dt,
                    cfg,
                    (mm + 1) as nat,
                ));
                assert(accel_pair_ok(
                    run_model(t, grid, dt, cfg, mm),
                    run_model(t, grid, dt, cfg, (mm + 1) as nat),
                    cfg,
                ));
            }
        }
    }
}

/// A body resting on a floor with no intent and an idle dash coasts to an
/// exact stop in finitely many ticks: after `n` ticks its velocity is
/// exactly zero, it is still grounded on the same row, and the state is a
/// fixed point — every further tick returns it unchanged.
pub proof fn lemma_rest_converges(s: TickModel, grid: Seq<SolidModel>, dt: int, cfg: PhysicsConfig) -> (n: nat)
    requires
        resting_core(s, cfg),
        rest_conds(dt, cfg),
        rest_geometry(s, grid, dt, cfg),
    ensures
        ({
            let r = run_model(s, grid, dt, cfg, n);
            &&& r.vel_x == 0
            &&& r.vel_y == 0
            &&& r.grounded
            &&& r.pos_y == s.pos_y
            &&& tick_model(r, grid, dt, cfg) == r
        }),
    decreases 2 * abs(s.vel_x) + (if s.acc_x == 0 && s.fr == 0 && s.dash_count
        == cfg.dash_count && s.vel_x == 0 {
        0int
    } else {
        1int
    }),
{
    lemma_rest_tick(s, grid, dt, cfg);
    let t = tick_model(s, grid, dt, cfg);
    if s.vel_x == 0 && s.acc_x == 0 && s.fr == 0 && s.dash_count == cfg.dash_count {
        assert(t == s);
        assert(run_model(s, grid, dt, cfg, 0) == s);
        0
    } else {
        let fdt = div_trunc(cfg.friction * dt, SCALE as int);
        assert(fdt >= 1) by {
            lemma_div_trunc_bounds(cfg.friction * dt, SCALE as int);
            lemma_div_trunc_ordered(SCALE as int, cfg.friction * dt, SCALE as int);
        }
        let rest = lemma_rest_converges(t, grid, dt, cfg);
        assert(run_model(s, grid, dt, cfg, rest + 1) == run_model(t, grid, dt, cfg, rest));
        rest + 1
    }
}

} // verus!
