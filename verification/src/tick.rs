//! One simulation tick, in the fixed order the pipeline prescribes:
//! the integrator advances the player, input is applied, the compositor
//! derives the spans from current tile state, and the resolver corrects
//! the player against them.

use vstd::prelude::*;

use crate::compositor::{composite_spans, emitted_spans, lemma_emitted_spans_ok};
use crate::input::{apply_input, input_spec};
use crate::integrator::{integrate, integrate_spec};
use crate::resolver::{resolve_all, resolve_seq_spec};
use crate::world::{
    player_pos_ok, tile_ok, Player, Tile, COORD_LIMIT, GRAVITY_PER_MS, MAX_TILES, MOVEMENT_SPEED,
};

verus! {

/// Derives this tick's composite spans from the tiles and resolves the
/// player against them, in emission order.
pub fn collision_tick(p: &mut Player, tiles: &Vec<Tile>)
    requires
        tiles@.len() <= MAX_TILES,
        forall|k: int| 0 <= k < tiles@.len() ==> tile_ok(#[trigger] tiles@[k]),
        player_pos_ok(*old(p)),
    ensures
        *final(p) == resolve_seq_spec(*old(p), emitted_spans(tiles@)),
        player_pos_ok(*final(p)),
{
    let pass = composite_spans(tiles);
    proof {
        lemma_emitted_spans_ok(tiles@);
    }
    resolve_all(p, &pass.spans);
}

/// One whole tick: integration, then input, then compositing and
/// resolution. The bounds keep every intermediate coordinate within the
/// range the resolver accepts.
pub fn simulation_tick(
    p: &mut Player,
    tiles: &Vec<Tile>,
    jump: bool,
    right: bool,
    left: bool,
    dt_ms: i64,
)
    requires
        0 <= dt_ms,
        i64::MIN <= old(p).vy * dt_ms <= i64::MAX,
        GRAVITY_PER_MS * dt_ms <= i64::MAX,
        i64::MIN <= old(p).vy - GRAVITY_PER_MS * dt_ms,
        MOVEMENT_SPEED * dt_ms <= i64::MAX,
        -2 * COORD_LIMIT <= old(p).y + old(p).vy * dt_ms <= 2 * COORD_LIMIT,
        -2 * COORD_LIMIT <= old(p).x <= 2 * COORD_LIMIT,
        left ==> -2 * COORD_LIMIT <= old(p).x - MOVEMENT_SPEED * dt_ms,
        right ==> old(p).x + MOVEMENT_SPEED * dt_ms <= 2 * COORD_LIMIT,
        tiles@.len() <= MAX_TILES,
        forall|k: int| 0 <= k < tiles@.len() ==> tile_ok(#[trigger] tiles@[k]),
    ensures
        *final(p) == resolve_seq_spec(
            input_spec(integrate_spec(*old(p), dt_ms as int), jump, right, left, dt_ms as int),
            emitted_spans(tiles@),
        ),
        player_pos_ok(*final(p)),
{
    integrate(p, dt_ms);
    apply_input(p, jump, right, left, dt_ms);
    collision_tick(p, tiles);
}

} // verus!
