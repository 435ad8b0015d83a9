//! The fixed tile layout the game starts from: two bridge tiles at
//! hand-placed offsets above the floor, then a contiguous ground row of
//! 400 tiles, all in spawn order. The floor height comes from the
//! window and is handed in; everything else is fixed.

use vstd::prelude::*;

use crate::world::{tile_ok, Tile, COORD_LIMIT, TILE_DIMENSIONS};

verus! {

/// How many tiles the contiguous ground row holds.
pub const GROUND_TILES: usize = 400;

/// Builds the starting tile list for a given floor height: one bridge
/// tile three tiles up and three to the right, one a single tile up and
/// two to the right, then the ground row from 200 tiles left of the
/// origin to 200 tiles right of it, one tile apart, in spawn order.
pub fn standard_layout(floor: i64) -> (r: Vec<Tile>)
    requires
        -COORD_LIMIT <= floor,
        floor + 3 * TILE_DIMENSIONS <= COORD_LIMIT,
    ensures
        r@.len() == GROUND_TILES + 2,
        r@[0] == (Tile { x: (3 * TILE_DIMENSIONS) as i64, y: (floor + 3 * TILE_DIMENSIONS) as i64 }),
        r@[1] == (Tile { x: (2 * TILE_DIMENSIONS) as i64, y: (floor + TILE_DIMENSIONS) as i64 }),
        forall|k: int| 2 <= k < r@.len() ==> (#[trigger] r@[k]) == (Tile {
            x: ((k - 202) * TILE_DIMENSIONS) as i64,
            y: floor,
        }),
        forall|k: int| 0 <= k < r@.len() ==> tile_ok(#[trigger] r@[k]),
{
    let mut tiles: Vec<Tile> = Vec::new();
    tiles.push(Tile { x: 3 * TILE_DIMENSIONS, y: floor + 3 * TILE_DIMENSIONS });
    tiles.push(Tile { x: 2 * TILE_DIMENSIONS, y: floor + TILE_DIMENSIONS });
    let mut i: usize = 0;
    while i < GROUND_TILES
        invariant
            -COORD_LIMIT <= floor,
            floor + 3 * TILE_DIMENSIONS <= COORD_LIMIT,
            i <= GROUND_TILES,
            tiles@.len() == i + 2,
            tiles@[0] == (Tile { x: (3 * TILE_DIMENSIONS) as i64, y: (floor + 3 * TILE_DIMENSIONS) as i64 }),
            tiles@[1] == (Tile { x: (2 * TILE_DIMENSIONS) as i64, y: (floor + TILE_DIMENSIONS) as i64 }),
            forall|k: int| 2 <= k < tiles@.len() ==> (#[trigger] tiles@[k]) == (Tile {
                x: ((k - 202) * TILE_DIMENSIONS) as i64,
                y: floor,
            }),
        decreases GROUND_TILES - i,
    {
        let offset: i64 = (i as i64) - 200;
        tiles.push(Tile { x: offset * TILE_DIMENSIONS, y: floor });
        i = i + 1;
    }
    tiles
}

} // verus!
