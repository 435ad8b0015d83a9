//! The integrator: advances the player's vertical position from its
//! velocity, then applies gravity to the velocity. Order matters: the
//! position uses the velocity as it was before gravity for this tick.

use vstd::prelude::*;

use crate::world::{Player, GRAVITY_PER_MS};

verus! {

/// The player state one integration step of `dt_ms` milliseconds
/// produces, assuming the arithmetic stays in range.
pub open spec fn integrate_spec(p: Player, dt_ms: int) -> Player {
    Player {
        x: p.x,
        y: (p.y + p.vy * dt_ms) as i64,
        vx: p.vx,
        vy: (p.vy - GRAVITY_PER_MS * dt_ms) as i64,
    }
}

/// One integration step over `dt_ms` milliseconds.
///
/// The position moves by the pre-update velocity; the velocity then
/// loses `GRAVITY_PER_MS * dt_ms`. Horizontal position and velocity are
/// untouched. A `dt_ms` of zero is a no-op.
pub fn integrate(p: &mut Player, dt_ms: i64)
    requires
        0 <= dt_ms,
        i64::MIN <= old(p).vy * dt_ms <= i64::MAX,
        i64::MIN <= old(p).y + old(p).vy * dt_ms <= i64::MAX,
        GRAVITY_PER_MS * dt_ms <= i64::MAX,
        i64::MIN <= old(p).vy - GRAVITY_PER_MS * dt_ms,
    ensures
        final(p).y == old(p).y + old(p).vy * dt_ms,
        final(p).vy == old(p).vy - GRAVITY_PER_MS * dt_ms,
        final(p).x == old(p).x,
        final(p).vx == old(p).vx,
        *final(p) == integrate_spec(*old(p), dt_ms as int),
{
    p.y = p.y + p.vy * dt_ms;
    p.vy = p.vy - GRAVITY_PER_MS * dt_ms;
}

} // verus!
