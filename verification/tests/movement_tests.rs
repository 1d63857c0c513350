use platformer_core::config::{
    PhysicsConfig, BLOCK_SIZE, FRICTION, GRAVITY_DEFAULT, HALF_BLOCK, JMP_VEL_PLAYER,
    MAX_VEL_PLAYER, SCALE,
};
use platformer_core::level::Level;
use platformer_core::physics::{
    dash_timer, update_physics, Acceleration, DashState, Friction, Gravity, Grounded, Movement,
    Vec2, Vec3, Velocity,
};
use platformer_core::player::control_player;

const DT: i64 = 20;

struct Body {
    pos: Vec3,
    vel: Velocity,
    accel: Acceleration,
    friction: Friction,
    gravity: Gravity,
    grounded: Grounded,
    movement: Movement,
}

fn spawn(x: i64, y: i64) -> Body {
    Body {
        pos: Vec3 { x, y, z: 0 },
        vel: Velocity::default(),
        accel: Acceleration::default(),
        friction: Friction(0),
        gravity: Gravity::default(),
        grounded: Grounded(false),
        movement: Movement::default(),
    }
}

fn tick(body: &mut Body, level: &Level, cfg: &PhysicsConfig) {
    update_physics(
        &mut body.pos,
        &mut body.vel,
        &mut body.accel,
        &mut body.friction,
        &mut body.gravity,
        &mut body.grounded,
        &mut body.movement,
        level,
        DT,
        cfg,
    );
    dash_timer(&mut body.movement, DT);
}

fn empty_level() -> Level {
    Level::new(
        Vec3 { x: 0, y: 0, z: 0 },
        Vec2 { x: BLOCK_SIZE, y: BLOCK_SIZE },
        Vec2 { x: 0, y: 0 },
    )
}

fn floor_level() -> Level {
    let mut level = empty_level();
    for ix in -2..3 {
        level.add_tile((ix, 0, String::from("tile_0069.png")));
    }
    level
}

#[test]
fn horizontal_speed_is_clamped_outside_a_dash() {
    let cfg = PhysicsConfig::default();
    let level = empty_level();
    let mut body = spawn(0, 0);
    body.vel = Velocity(Vec2 { x: 500_000, y: 0 });
    tick(&mut body, &level, &cfg);
    assert_eq!(body.vel.0.x, MAX_VEL_PLAYER);
    let mut leftward = spawn(0, 0);
    leftward.vel = Velocity(Vec2 { x: -500_000, y: 0 });
    tick(&mut leftward, &level, &cfg);
    assert_eq!(leftward.vel.0.x, -MAX_VEL_PLAYER);
}

#[test]
fn resting_body_coasts_to_exact_zero_and_stays_grounded() {
    let cfg = PhysicsConfig::default();
    let level = floor_level();
    // Standing half a block above the floor's surface, sliding.
    let mut body = spawn(HALF_BLOCK, BLOCK_SIZE + HALF_BLOCK);
    body.grounded = Grounded(true);
    body.vel = Velocity(Vec2 { x: 10_000, y: 0 });
    // Friction takes 3000 per tick; the dead zone snaps below 4800.
    tick(&mut body, &level, &cfg);
    assert_eq!(body.vel.0.x, 7000);
    assert!(body.grounded.0);
    tick(&mut body, &level, &cfg);
    assert_eq!(body.vel.0, Vec2 { x: 0, y: 0 });
    assert!(body.grounded.0);
    // At rest the state no longer changes.
    let pos = body.pos;
    for _ in 0..5 {
        tick(&mut body, &level, &cfg);
        assert_eq!(body.vel.0, Vec2 { x: 0, y: 0 });
        assert_eq!(body.pos, pos);
        assert!(body.grounded.0);
        assert_eq!(body.friction.0, 0);
    }
}

#[test]
fn solid_ahead_blocks_horizontal_advance() {
    let cfg = PhysicsConfig::default();
    let mut level = empty_level();
    // A wall one block to the right of the body, at its own height.
    level.add_tile((1, 1, String::from("tile_0069.png")));
    let mut body = spawn(HALF_BLOCK, BLOCK_SIZE + HALF_BLOCK);
    body.vel = Velocity(Vec2 { x: 240_000, y: 0 });
    body.gravity = Gravity(0);
    let x_before = body.pos.x;
    tick(&mut body, &level, &cfg);
    // The probe half a block ahead of the move lands inside the wall:
    // the horizontal position holds, and friction is cancelled.
    assert_eq!(body.pos.x, x_before);
    assert_eq!(body.friction.0, 0);
    // Without the wall the same move commits.
    let open = empty_level();
    let mut free = spawn(HALF_BLOCK, BLOCK_SIZE + HALF_BLOCK);
    free.vel = Velocity(Vec2 { x: 240_000, y: 0 });
    free.gravity = Gravity(0);
    tick(&mut free, &open, &cfg);
    assert_eq!(free.pos.x, HALF_BLOCK + 3975);
}

#[test]
fn steering_right_advances_and_speed_climbs_monotonically() {
    let cfg = PhysicsConfig::default();
    let level = empty_level();
    let mut body = spawn(0, 0);
    body.grounded = Grounded(true);
    let mut last_x = body.pos.x;
    let mut last_v = body.vel.0.x;
    for _ in 0..5 {
        control_player(&mut body.movement, false, false, false, false, false, true, false);
        tick(&mut body, &level, &cfg);
        assert!(body.pos.x > last_x);
        assert!(body.vel.0.x >= last_v);
        assert!(body.vel.0.x <= MAX_VEL_PLAYER);
        last_x = body.pos.x;
        last_v = body.vel.0.x;
    }
    // Acceleration adds 20 world units per second each tick at 1/60.
    assert_eq!(body.vel.0.x, 5 * 20 * SCALE);
}

#[test]
fn grounded_jump_is_edge_triggered() {
    let cfg = PhysicsConfig::default();
    let level = floor_level();
    let mut body = spawn(HALF_BLOCK, BLOCK_SIZE + HALF_BLOCK);
    body.grounded = Grounded(true);
    control_player(&mut body.movement, true, false, false, false, false, false, false);
    assert!(body.movement.jump);
    tick(&mut body, &level, &cfg);
    // The jump velocity was set, then one tick of gravity came off.
    assert_eq!(body.vel.0.y, JMP_VEL_PLAYER - GRAVITY_DEFAULT * DT / SCALE);
    // The request was consumed: holding the key does not re-trigger.
    assert!(!body.movement.jump);
}

#[test]
fn control_player_builds_intent_from_keys() {
    let mut movement = Movement::default();
    control_player(&mut movement, false, false, true, false, true, false, false);
    assert_eq!(movement.directional, Vec2 { x: -SCALE, y: SCALE });
    control_player(&mut movement, false, false, false, true, false, true, false);
    assert_eq!(movement.directional, Vec2 { x: SCALE, y: -SCALE });
    control_player(&mut movement, false, false, true, true, true, true, false);
    assert_eq!(movement.directional, Vec2 { x: 0, y: 0 });
    // Releasing the jump key clears a pending jump.
    control_player(&mut movement, true, false, false, false, false, false, false);
    assert!(movement.jump);
    control_player(&mut movement, false, true, false, false, false, false, false);
    assert!(!movement.jump);
    // A dash press only arms an idle dash.
    movement.dash.status = DashState::Dashing;
    control_player(&mut movement, false, false, false, false, false, false, true);
    assert!(matches!(movement.dash.status, DashState::Dashing));
    movement.dash.status = DashState::Ready;
    control_player(&mut movement, false, false, false, false, false, false, true);
    assert!(matches!(movement.dash.status, DashState::Started));
}

#[test]
fn component_defaults_match_the_tunables() {
    assert_eq!(Velocity::default().0, Vec2 { x: 0, y: 0 });
    assert_eq!(Acceleration::default().0, Vec2 { x: 0, y: 0 });
    assert_eq!(Friction::default().0, FRICTION);
    assert_eq!(Gravity::default().0, GRAVITY_DEFAULT);
    let movement = Movement::default();
    assert!(matches!(movement.dash.status, DashState::Ready));
    assert_eq!(movement.dash.dash_count, 2);
    assert!(!movement.jump);
    let cfg = PhysicsConfig::default();
    assert_eq!(cfg.max_vel, MAX_VEL_PLAYER);
    assert_eq!(cfg.half_block_x, HALF_BLOCK);
}
