//! Translation of per-frame input edges and key states into the movement
//! intent the integrator consumes.

use vstd::prelude::*;

use crate::config::SCALE;
use crate::physics::{DashState, Movement, Vec2};

verus! {

/// Rewrite the movement intent from this frame's input: the jump flag is
/// edge-triggered on the jump key, the directional vector sums the four
/// held arrows, and a dash press while the dash is ready starts it.
pub fn control_player(
    movement: &mut Movement,
    jump_pressed: bool,
    jump_released: bool,
    up: bool,
    down: bool,
    left: bool,
    right: bool,
    dash_pressed: bool,
)
    ensures
        final(movement).jump == (if jump_released {
            false
        } else if jump_pressed {
            true
        } else {
            old(movement).jump
        }),
        final(movement).directional.x == (if right { SCALE as int } else { 0 }) - (if left {
            SCALE as int
        } else {
            0
        }),
        final(movement).directional.y == (if up { SCALE as int } else { 0 }) - (if down {
            SCALE as int
        } else {
            0
        }),
        final(movement).dash.status == (if dash_pressed && old(movement).dash.status is Ready {
            DashState::Started
        } else {
            old(movement).dash.status
        }),
        final(movement).dash.dash_count == old(movement).dash.dash_count,
        final(movement).dash.dash_timer == old(movement).dash.dash_timer,
        final(movement).dash.distance == old(movement).dash.distance,
        final(movement).dash.start_point == old(movement).dash.start_point,
{
    let mut tx: i64 = 0;
    let mut ty: i64 = 0;
    if jump_pressed {
        movement.jump = true;
    }
    if jump_released {
        movement.jump = false;
    }
    if up {
        ty = ty + SCALE;
    }
    if down {
        ty = ty - SCALE;
    }
    if left {
        tx = tx - SCALE;
    }
    if right {
        tx = tx + SCALE;
    }
    if dash_pressed && matches!(movement.dash.status, DashState::Ready) {
        movement.dash.status = DashState::Started;
    }
    movement.directional = Vec2 { x: tx, y: ty };
}

} // verus!
