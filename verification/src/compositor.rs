//! The tile compositor: one scan over the tile sequence in storage
//! order, merging horizontally-adjacent, vertically-aligned tiles into
//! composite spans. The scan compares each tile with its predecessor;
//! while a run continues, every further tile adds one tile width to the
//! composite width of the run's anchor. One span candidate is emitted
//! per tile except the last, snapshotting the width the tile holds at
//! emission time. Widths are recomputed from the one-tile base every
//! pass, so repeated passes never compound.

use vstd::prelude::*;

use crate::world::{span_ok, tile_ok, Span, Tile, MAX_TILES, TILE_DIMENSIONS};

verus! {

/// Two tiles in storage order are connected when their horizontal
/// distance is at most one tile width and their rows are exactly equal.
pub open spec fn adjacent(prev: Tile, cur: Tile) -> bool {
    &&& -TILE_DIMENSIONS <= cur.x - prev.x <= TILE_DIMENSIONS
    &&& cur.y == prev.y
}

/// The run counter as it stands when the scan reaches index `i`: one on
/// entry, grown by one for every connected pair seen since the last
/// break.
pub open spec fn counter_before(tiles: Seq<Tile>, i: int) -> int
    decreases i,
{
    if i <= 1 {
        1
    } else if adjacent(tiles[i - 2], tiles[i - 1]) {
        counter_before(tiles, i - 1) + 1
    } else {
        1
    }
}

/// The composite widths after the scan has processed indices `1..=i`:
/// every tile starts at one tile width, and each connected pair adds one
/// tile width to the anchor of its run.
pub open spec fn widths_through(tiles: Seq<Tile>, i: int) -> Seq<int>
    decreases i,
{
    if i <= 0 {
        Seq::new(tiles.len(), |k: int| TILE_DIMENSIONS as int)
    } else {
        let prev = widths_through(tiles, i - 1);
        if adjacent(tiles[i - 1], tiles[i]) {
            let a = i - counter_before(tiles, i);
            prev.update(a, prev[a] + TILE_DIMENSIONS)
        } else {
            prev
        }
    }
}

/// The composite width each tile holds once the whole scan is done.
pub open spec fn final_widths(tiles: Seq<Tile>) -> Seq<int> {
    widths_through(tiles, tiles.len() - 1)
}

/// The span candidate emitted when the scan reaches index `i`: the
/// predecessor tile's position, with the width it holds at that moment.
pub open spec fn span_at(tiles: Seq<Tile>, i: int) -> Span {
    Span {
        x: tiles[i - 1].x,
        y: tiles[i - 1].y,
        width: widths_through(tiles, i)[i - 1] as i64,
    }
}

/// All span candidates of one pass, in emission order: one per tile
/// except the last, which is never emitted.
pub open spec fn emitted_spans(tiles: Seq<Tile>) -> Seq<Span> {
    if tiles.len() == 0 {
        Seq::empty()
    } else {
        Seq::new((tiles.len() - 1) as nat, |j: int| span_at(tiles, j + 1))
    }
}

/// The run counter never leaves `1..=i`.
pub proof fn lemma_counter_range(tiles: Seq<Tile>, i: int)
    requires
        1 <= i,
    ensures
        1 <= counter_before(tiles, i) <= i,
    decreases i,
{
    if i > 1 {
        lemma_counter_range(tiles, i - 1);
    }
}

/// Every width stays between one tile and `i + 1` tiles while the scan
/// runs, and the width sequence keeps the tiles' length.
pub proof fn lemma_widths_bounds(tiles: Seq<Tile>, i: int)
    requires
        (tiles.len() == 0 && i == -1) || (0 <= i < tiles.len()),
    ensures
        widths_through(tiles, i).len() == tiles.len(),
        forall|k: int| 0 <= k < tiles.len() ==>
            TILE_DIMENSIONS <= #[trigger] widths_through(tiles, i)[k] <= TILE_DIMENSIONS * (i + 1),
    decreases i,
{
    if i <= 0 {
        assert(widths_through(tiles, i) =~= Seq::new(
            tiles.len(),
            |k: int| TILE_DIMENSIONS as int,
        ));
    } else {
        lemma_widths_bounds(tiles, i - 1);
        lemma_counter_range(tiles, i);
        let prev = widths_through(tiles, i - 1);
        if adjacent(tiles[i - 1], tiles[i]) {
            let a = i - counter_before(tiles, i);
            assert(0 <= a < tiles.len());
            assert(widths_through(tiles, i) == prev.update(a, prev[a] + TILE_DIMENSIONS));
            assert forall|k: int| 0 <= k < tiles.len() implies TILE_DIMENSIONS <= #[trigger] widths_through(
                tiles,
                i,
            )[k] <= TILE_DIMENSIONS * (i + 1) by {
                assert(TILE_DIMENSIONS <= prev[k] <= TILE_DIMENSIONS * i);
                if k == a {
                    assert(widths_through(tiles, i)[k] == prev[a] + TILE_DIMENSIONS);
                } else {
                    assert(widths_through(tiles, i)[k] == prev[k]);
                }
            }
        } else {
            assert(widths_through(tiles, i) == prev);
        }
    }
}

/// The outcome of one compositing pass.
pub struct CompositePass {
    /// One span candidate per tile except the last, in emission order.
    pub spans: Vec<Span>,
    /// The composite width each tile holds after the pass.
    pub widths: Vec<i64>,
}

/// Reports whether two tiles in storage order are connected.
pub fn tiles_adjacent(prev: &Tile, cur: &Tile) -> (r: bool)
    requires
        tile_ok(*prev),
        tile_ok(*cur),
    ensures
        r == adjacent(*prev, *cur),
{
    let dx: i64 = cur.x - prev.x;
    -TILE_DIMENSIONS <= dx && dx <= TILE_DIMENSIONS && cur.y == prev.y
}

/// One compositing pass over the tiles in storage order.
///
/// Returns the emitted span candidates and the final composite widths;
/// zero or one tile yields no candidates.
pub fn composite_spans(tiles: &Vec<Tile>) -> (r: CompositePass)
    requires
        tiles@.len() <= MAX_TILES,
        forall|k: int| 0 <= k < tiles@.len() ==> tile_ok(#[trigger] tiles@[k]),
    ensures
        r.widths@.len() == tiles@.len(),
        forall|k: int| 0 <= k < tiles@.len() ==> (#[trigger] r.widths@[k]) == final_widths(tiles@)[k],
        r.spans@ == emitted_spans(tiles@),
{
    let n: usize = tiles.len();

    let mut widths: Vec<i64> = Vec::new();
    let mut j: usize = 0;
    while j < n
        invariant
            j <= n,
            widths@.len() == j,
            forall|k: int| 0 <= k < j ==> (#[trigger] widths@[k]) == TILE_DIMENSIONS,
        decreases n - j,
    {
        widths.push(TILE_DIMENSIONS);
        j = j + 1;
    }

    let mut spans: Vec<Span> = Vec::new();
    let mut counter: usize = 1;
    let mut i: usize = 1;
    while i < n
        invariant
            n == tiles@.len(),
            n <= MAX_TILES,
            forall|k: int| 0 <= k < n ==> tile_ok(#[trigger] tiles@[k]),
            1 <= i,
            i <= n || i == 1,
            widths@.len() == n,
            counter == counter_before(tiles@, i as int),
            1 <= counter <= i,
            forall|k: int| 0 <= k < n ==> (#[trigger] widths@[k]) == widths_through(tiles@, i - 1)[k],
            forall|k: int| 0 <= k < n ==>
                TILE_DIMENSIONS <= (#[trigger] widths@[k]) <= TILE_DIMENSIONS * (i as int),
            spans@.len() == i - 1,
            forall|j2: int| 0 <= j2 < i - 1 ==> (#[trigger] spans@[j2]) == span_at(tiles@, j2 + 1),
        decreases n - i,
    {
        let prev: Tile = tiles[i - 1];
        let cur: Tile = tiles[i];
        proof {
            lemma_widths_bounds(tiles@, i - 1);
        }
        if tiles_adjacent(&prev, &cur) {
            let a: usize = i - counter;
            let w: i64 = widths[a];
            widths[a] = w + TILE_DIMENSIONS;
            counter = counter + 1;
            proof {
                let iv = i as int;
                let before = widths_through(tiles@, iv - 1);
                let at = iv - counter_before(tiles@, iv);
                assert(widths_through(tiles@, iv) == before.update(at, before[at]
                    + TILE_DIMENSIONS));
                assert forall|k: int| 0 <= k < n implies (#[trigger] widths@[k])
                    == widths_through(tiles@, iv)[k] by {
                    if k == at {
                        assert(widths_through(tiles@, iv)[k] == before[at] + TILE_DIMENSIONS);
                    } else {
                        assert(widths_through(tiles@, iv)[k] == before[k]);
                    }
                }
            }
        } else {
            counter = 1;
            proof {
                let iv = i as int;
                assert(widths_through(tiles@, iv) == widths_through(tiles@, iv - 1));
            }
        }
        let sw: i64 = widths[i - 1];
        spans.push(Span { x: prev.x, y: prev.y, width: sw });
        i = i + 1;
    }

    proof {
        lemma_widths_bounds(tiles@, n - 1);
        assert(spans@ =~= emitted_spans(tiles@));
    }
    CompositePass { spans, widths }
}

/// While the scan walks a contiguous horizontal run, the run counter
/// tracks the index and the anchor alone accumulates, one tile width
/// per scanned tile.
proof fn lemma_uniform_run_state(tiles: Seq<Tile>, i: int)
    requires
        1 <= i < tiles.len(),
        forall|k: int| 0 <= k < tiles.len() ==>
            (#[trigger] tiles[k].x) == tiles[0].x + k * TILE_DIMENSIONS,
        forall|k: int| 0 <= k < tiles.len() ==> (#[trigger] tiles[k].y) == tiles[0].y,
    ensures
        counter_before(tiles, i) == i,
        widths_through(tiles, i)[0] == TILE_DIMENSIONS * (i + 1),
        forall|k: int| 1 <= k < tiles.len() ==>
            #[trigger] widths_through(tiles, i)[k] == TILE_DIMENSIONS,
    decreases i,
{
    lemma_widths_bounds(tiles, i - 1);
    if i == 1 {
        assert(tiles[0].x == tiles[0].x + 0 * TILE_DIMENSIONS);
    } else {
        lemma_uniform_run_state(tiles, i - 1);
    }
}

/// Run growth: for a contiguous horizontal run of `n` tiles, spaced
/// exactly one tile width apart on the same row, the anchor tile's final
/// composite width is `n * TILE_DIMENSIONS`, and every other tile keeps
/// the one-tile base width.
pub proof fn lemma_run_growth(tiles: Seq<Tile>)
    requires
        1 <= tiles.len(),
        forall|k: int| 0 <= k < tiles.len() ==>
            (#[trigger] tiles[k].x) == tiles[0].x + k * TILE_DIMENSIONS,
        forall|k: int| 0 <= k < tiles.len() ==> (#[trigger] tiles[k].y) == tiles[0].y,
    ensures
        final_widths(tiles).len() == tiles.len(),
        final_widths(tiles)[0] == tiles.len() * TILE_DIMENSIONS,
        forall|k: int| 1 <= k < tiles.len() ==>
            #[trigger] final_widths(tiles)[k] == TILE_DIMENSIONS,
{
    lemma_widths_bounds(tiles, tiles.len() - 1);
    if tiles.len() == 1 {
    } else {
        lemma_uniform_run_state(tiles, tiles.len() - 1);
    }
}

/// Every span one pass emits carries its anchor tile's coordinates and
/// a width between one tile and one tile per scanned tile, so the
/// resolver accepts it.
pub proof fn lemma_emitted_spans_ok(tiles: Seq<Tile>)
    requires
        tiles.len() <= MAX_TILES,
        forall|k: int| 0 <= k < tiles.len() ==> tile_ok(#[trigger] tiles[k]),
    ensures
        forall|j: int| 0 <= j < emitted_spans(tiles).len() ==> span_ok(
            #[trigger] emitted_spans(tiles)[j],
        ),
{
    assert forall|j: int| 0 <= j < emitted_spans(tiles).len() implies span_ok(
        #[trigger] emitted_spans(tiles)[j],
    ) by {
        lemma_widths_bounds(tiles, j + 1);
        assert(TILE_DIMENSIONS <= widths_through(tiles, j + 1)[j] <= TILE_DIMENSIONS * (j + 2));
        assert(emitted_spans(tiles)[j] == span_at(tiles, j + 1));
    }
}

/// The depth-ordering side effect, as a pass of its own, apart from
/// collision: each tile but the last has its depth multiplied by the
/// negation of its successor index, meant to keep later tiles visually
/// behind.
pub fn depth_pass(depths: &mut Vec<i64>)
    requires
        old(depths)@.len() <= MAX_TILES,
        forall|k: int| 0 <= k < old(depths)@.len() - 1 ==>
            i64::MIN <= (#[trigger] old(depths)@[k]) * (-(k + 1)) <= i64::MAX,
    ensures
        final(depths)@.len() == old(depths)@.len(),
        forall|k: int| 0 <= k < old(depths)@.len() - 1 ==>
            (#[trigger] final(depths)@[k]) == old(depths)@[k] * (-(k + 1)),
        old(depths)@.len() > 0 ==> final(depths)@[old(depths)@.len() - 1]
            == old(depths)@[old(depths)@.len() - 1],
{
    let n: usize = depths.len();
    let mut i: usize = 1;
    while i < n
        invariant
            n == depths@.len(),
            n == old(depths)@.len(),
            n <= MAX_TILES,
            1 <= i,
            i <= n || i == 1,
            forall|k: int| 0 <= k < old(depths)@.len() - 1 ==>
                i64::MIN <= (#[trigger] old(depths)@[k]) * (-(k + 1)) <= i64::MAX,
            forall|k: int| 0 <= k < i - 1 ==>
                (#[trigger] depths@[k]) == old(depths)@[k] * (-(k + 1)),
            forall|k: int| i - 1 <= k < n ==> (#[trigger] depths@[k]) == old(depths)@[k],
        decreases n - i,
    {
        let m: i64 = i as i64;
        let d: i64 = depths[i - 1];
        depths[i - 1] = d * (-m);
        i = i + 1;
    }
}

} // verus!
