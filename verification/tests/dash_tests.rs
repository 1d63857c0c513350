use platformer_core::config::{
    PhysicsConfig, DEFAULT_DASH_COUNT, BLOCK_SIZE, INITIAL_ACCEL_DASH, INITIAL_VEL_DASH, SCALE,
};
use platformer_core::level::Level;
use platformer_core::physics::{
    dash_timer, update_physics, Acceleration, DashState, Friction, Gravity, Grounded, Movement,
    Vec2, Vec3, Velocity,
};
use platformer_core::player::control_player;

const DT: i64 = 20;

struct Body {
    pos: Vec3,
    vel: Velocity,
    accel: Acceleration,
    friction: Friction,
    gravity: Gravity,
    grounded: Grounded,
    movement: Movement,
}

fn spawn(x: i64, y: i64) -> Body {
    Body {
        pos: Vec3 { x, y, z: 0 },
        vel: Velocity::default(),
        accel: Acceleration::default(),
        friction: Friction(0),
        gravity: Gravity::default(),
        grounded: Grounded(false),
        movement: Movement::default(),
    }
}

fn tick(body: &mut Body, level: &Level, cfg: &PhysicsConfig) {
    update_physics(
        &mut body.pos,
        &mut body.vel,
        &mut body.accel,
        &mut body.friction,
        &mut body.gravity,
        &mut body.grounded,
        &mut body.movement,
        level,
        DT,
        cfg,
    );
    dash_timer(&mut body.movement, DT);
}

fn empty_level() -> Level {
    Level::new(
        Vec3 { x: 0, y: 0, z: 0 },
        Vec2 { x: BLOCK_SIZE, y: BLOCK_SIZE },
        Vec2 { x: 0, y: 0 },
    )
}

fn isqrt_by_hand(n: u128) -> u128 {
    let mut r: u128 = 0;
    while (r + 1) * (r + 1) <= n {
        r += 1;
    }
    r
}

#[test]
fn dash_request_spends_a_charge_and_overrides_velocity() {
    let cfg = PhysicsConfig::default();
    let level = empty_level();
    let mut body = spawn(0, 0);
    assert_eq!(body.movement.dash.dash_count, 2);
    // Hold right and press the dash key: the dash starts this frame.
    control_player(&mut body.movement, false, false, false, false, false, true, true);
    assert!(matches!(body.movement.dash.status, DashState::Started));
    tick(&mut body, &level, &cfg);
    assert!(matches!(body.movement.dash.status, DashState::Dashing));
    assert_eq!(body.movement.dash.dash_count, 1);
    // The dash set the velocity to the dash speed; the same tick then
    // integrated one tick of the dash's own deceleration.
    assert_eq!(body.vel.0.x, INITIAL_VEL_DASH - INITIAL_ACCEL_DASH * DT / SCALE);
    assert_eq!(body.vel.0.y, 0);
    assert_eq!(body.gravity.0, 0);
    assert_eq!(body.friction.0, 0);
}

#[test]
fn dash_without_charges_cancels_and_changes_nothing_else() {
    let cfg = PhysicsConfig::default();
    let level = empty_level();
    let mut body = spawn(777, -5);
    body.vel = Velocity(Vec2 { x: 12345, y: -678 });
    body.accel = Acceleration(Vec2 { x: 9, y: 8 });
    body.movement.dash.dash_count = 0;
    body.movement.dash.status = DashState::Started;
    body.movement.dash.start_point = Vec3 { x: 11, y: 22, z: 0 };
    let pos_before = body.pos;
    tick(&mut body, &level, &cfg);
    assert!(matches!(body.movement.dash.status, DashState::Cancelled));
    assert_eq!(body.movement.dash.dash_count, 0);
    assert_eq!(body.vel.0, Vec2 { x: 12345, y: -678 });
    assert_eq!(body.accel.0, Vec2 { x: 9, y: 8 });
    assert_eq!(body.pos, pos_before);
    // The recorded start point is only written when a dash actually starts.
    assert_eq!(body.movement.dash.start_point, Vec3 { x: 11, y: 22, z: 0 });
    // The cancelled dash resolves back to ready on the next tick.
    tick(&mut body, &level, &cfg);
    assert!(matches!(body.movement.dash.status, DashState::Ready));
}

#[test]
fn grounded_refills_charges_but_dashing_does_not() {
    let cfg = PhysicsConfig::default();
    let mut level = empty_level();
    for ix in -2..3 {
        level.add_tile((ix, 0, String::from("tile_0069.png")));
    }
    let mut body = spawn(BLOCK_SIZE / 2, BLOCK_SIZE + BLOCK_SIZE / 2);
    body.grounded = Grounded(true);
    body.movement.dash.dash_count = 0;
    tick(&mut body, &level, &cfg);
    assert_eq!(body.movement.dash.dash_count, DEFAULT_DASH_COUNT);

    // Airborne: no refill.
    let empty = empty_level();
    let mut airborne = spawn(0, 0);
    airborne.movement.dash.dash_count = 0;
    tick(&mut airborne, &empty, &cfg);
    assert_eq!(airborne.movement.dash.dash_count, 0);

    // Mid-dash: no refill even while grounded.
    let mut dashing = spawn(BLOCK_SIZE / 2, BLOCK_SIZE + BLOCK_SIZE / 2);
    dashing.grounded = Grounded(true);
    dashing.movement.dash.dash_count = 0;
    dashing.movement.dash.status = DashState::Dashing;
    dashing.gravity = Gravity(0);
    tick(&mut dashing, &level, &cfg);
    assert_eq!(dashing.movement.dash.dash_count, 0);
}

#[test]
fn dash_heading_falls_back_to_velocity_then_rightward() {
    let cfg = PhysicsConfig::default();
    let level = empty_level();
    // No intent, upward velocity: the dash follows the velocity.
    let mut body = spawn(0, 0);
    body.vel = Velocity(Vec2 { x: 0, y: 5000 });
    body.movement.dash.status = DashState::Started;
    tick(&mut body, &level, &cfg);
    assert!(matches!(body.movement.dash.status, DashState::Dashing));
    assert_eq!(body.vel.0.x, 0);
    assert_eq!(body.vel.0.y, INITIAL_VEL_DASH - INITIAL_ACCEL_DASH * DT / SCALE);
    // No intent and no velocity: the dash goes rightward.
    let mut still = spawn(0, 0);
    still.movement.dash.status = DashState::Started;
    tick(&mut still, &level, &cfg);
    assert_eq!(still.vel.0.x, INITIAL_VEL_DASH - INITIAL_ACCEL_DASH * DT / SCALE);
    assert_eq!(still.vel.0.y, 0);
}

#[test]
fn dash_timer_finishes_after_duration_and_distance_is_euclidean() {
    let cfg = PhysicsConfig::default();
    let level = empty_level();
    let mut body = spawn(0, 0);
    control_player(&mut body.movement, false, false, false, false, false, true, true);
    // The timer is the default one-shot: 0.2 seconds, twelve ticks at 1/60.
    assert_eq!(body.movement.dash.dash_timer.duration, SCALE / 5);
    for _ in 0..12 {
        assert!(!matches!(body.movement.dash.status, DashState::Finished));
        tick(&mut body, &level, &cfg);
    }
    // 0.2 seconds have elapsed while dashing: the timer has just finished.
    assert!(matches!(body.movement.dash.status, DashState::Finished));
    assert_eq!(body.movement.dash.dash_timer.elapsed, 0);
    let start = body.movement.dash.start_point;
    let end = body.pos;
    assert_eq!(start, Vec3 { x: 0, y: 0, z: 0 });
    assert!(end.x > 0);
    // One more tick resolves the dash back to ready and records the
    // distance between the recorded start and end points.
    tick(&mut body, &level, &cfg);
    assert!(matches!(body.movement.dash.status, DashState::Ready));
    let dx = (end.x - start.x) as i128;
    let dy = (end.y - start.y) as i128;
    let dz = (end.z - start.z) as i128;
    let expected = isqrt_by_hand((dx * dx + dy * dy + dz * dz) as u128) as i64;
    assert_eq!(body.movement.dash.distance, expected);
    assert_eq!(body.movement.dash.distance, end.x - start.x);
    assert_eq!(body.gravity.0, cfg.gravity);
}
