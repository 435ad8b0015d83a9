//! World constants and the core data types: the player, the static tiles,
//! and the composite spans derived from them each tick.

use vstd::prelude::*;

verus! {

/// Position subunits per world unit (positions are millionths of a unit).
pub const POS_SCALE: i64 = 1_000_000;

/// Velocity subunits per world unit per second (velocities are
/// thousandths of a unit per second).
pub const VEL_SCALE: i64 = 1_000;

/// Side length of a tile, and of the player box: 64 world units,
/// on the position scale.
pub const TILE_DIMENSIONS: i64 = 64_000_000;

/// Downward acceleration: 3000 world units per second squared, expressed
/// on the velocity scale (velocity subunits lost per second of fall).
pub const GRAVITY: i64 = 3_000_000;

/// Velocity subunits lost per millisecond of fall: `GRAVITY` divided by
/// the number of milliseconds in a second.
pub const GRAVITY_PER_MS: i64 = 3_000;

/// Upward velocity granted by a jump: 1000 world units per second,
/// on the velocity scale.
pub const JUMP_SPEED: i64 = 1_000_000;

/// Horizontal walking speed: 200 world units per second, on the
/// velocity scale.
pub const MOVEMENT_SPEED: i64 = 200_000;

/// Bound on tile and span coordinates and widths. Keeping coordinates
/// within it leaves the collision arithmetic far from `i64` overflow.
pub const COORD_LIMIT: i64 = 1_000_000_000_000_000;

/// Bound on how many tiles one compositing pass accepts; it keeps every
/// accumulated span width below `COORD_LIMIT`.
pub const MAX_TILES: usize = 10_000_000;

/// The single dynamic body: a box one tile in size, centred at
/// `(x, y)`, moving at `(vx, vy)`.
#[derive(Clone, Copy, Debug, PartialEq, Eq, Structural)]
pub struct Player {
    /// Horizontal centre, position scale.
    pub x: i64,
    /// Vertical centre, position scale.
    pub y: i64,
    /// Horizontal velocity, velocity scale.
    pub vx: i64,
    /// Vertical velocity, velocity scale.
    pub vy: i64,
}

/// A static tile: a box one tile in size, centred at `(x, y)`.
/// Tiles are created once at setup and live in spawn order.
#[derive(Clone, Copy, Debug, PartialEq, Eq, Structural)]
pub struct Tile {
    /// Horizontal centre, position scale.
    pub x: i64,
    /// Vertical centre, position scale.
    pub y: i64,
}

/// A composite collision span derived from a run of tiles: a box of size
/// `width` by `TILE_DIMENSIONS` centred at `(x, y)`. Spans are
/// recomputed from tile state every tick and never stored.
#[derive(Clone, Copy, Debug, PartialEq, Eq, Structural)]
pub struct Span {
    /// Horizontal centre, position scale.
    pub x: i64,
    /// Vertical centre, position scale.
    pub y: i64,
    /// Horizontal extent, position scale; at least one tile width.
    pub width: i64,
}

/// A tile whose coordinates the pipeline accepts.
pub open spec fn tile_ok(t: Tile) -> bool {
    &&& -COORD_LIMIT <= t.x <= COORD_LIMIT
    &&& -COORD_LIMIT <= t.y <= COORD_LIMIT
}

/// A span whose coordinates and width the resolver accepts.
pub open spec fn span_ok(s: Span) -> bool {
    &&& -COORD_LIMIT <= s.x <= COORD_LIMIT
    &&& -COORD_LIMIT <= s.y <= COORD_LIMIT
    &&& 0 < s.width <= COORD_LIMIT
}

/// A player position the resolver accepts. The margin over `COORD_LIMIT`
/// lets every resolver correction land back inside the same bound.
pub open spec fn player_pos_ok(p: Player) -> bool {
    &&& -2 * COORD_LIMIT <= p.x <= 2 * COORD_LIMIT
    &&& -2 * COORD_LIMIT <= p.y <= 2 * COORD_LIMIT
}

} // verus!
