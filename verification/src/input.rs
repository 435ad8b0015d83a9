//! Input application: turns the tick's key states into the velocity and
//! position writes they cause. Polling the keyboard itself is left to
//! the surrounding program; this function only takes the booleans.

use vstd::prelude::*;

use crate::world::{Player, JUMP_SPEED, MOVEMENT_SPEED};

verus! {

/// The player state one tick of input produces, assuming the
/// arithmetic stays in range.
pub open spec fn input_spec(p: Player, jump: bool, right: bool, left: bool, dt_ms: int) -> Player {
    Player {
        x: (p.x + (if right {
            MOVEMENT_SPEED * dt_ms
        } else {
            0
        }) - (if left {
            MOVEMENT_SPEED * dt_ms
        } else {
            0
        })) as i64,
        y: p.y,
        vx: p.vx,
        vy: if jump {
            JUMP_SPEED
        } else {
            p.vy
        },
    }
}

/// Applies one tick of input to the player.
///
/// A held jump key sets the vertical velocity to `JUMP_SPEED`; the right
/// and left keys each move the horizontal position by
/// `MOVEMENT_SPEED * dt_ms`, independently, so holding both cancels out.
pub fn apply_input(p: &mut Player, jump: bool, right: bool, left: bool, dt_ms: i64)
    requires
        0 <= dt_ms,
        MOVEMENT_SPEED * dt_ms <= i64::MAX,
        right ==> old(p).x + MOVEMENT_SPEED * dt_ms <= i64::MAX,
        left ==> i64::MIN <= old(p).x - MOVEMENT_SPEED * dt_ms,
    ensures
        final(p).vy == (if jump { JUMP_SPEED } else { old(p).vy }),
        final(p).x == old(p).x + (if right { MOVEMENT_SPEED * dt_ms } else { 0 })
            - (if left { MOVEMENT_SPEED * dt_ms } else { 0 }),
        final(p).y == old(p).y,
        final(p).vx == old(p).vx,
        *final(p) == input_spec(*old(p), jump, right, left, dt_ms as int),
{
    if jump {
        p.vy = JUMP_SPEED;
    }
    let step: i64 = MOVEMENT_SPEED * dt_ms;
    if right {
        p.x = p.x + step;
    }
    if left {
        p.x = p.x - step;
    }
}

} // verus!
