//! The collision resolver: tests the player box against every composite
//! span in emission order and applies at most one directional correction
//! per overlapping span. Every overlap test of one pass uses the player
//! position captured at pass entry; the corrections land on the running
//! state, so later spans override earlier corrections without ever
//! seeing them. That last-write-wins rule is deliberate for a single
//! dynamic body.
//!
//! Box edges are compared at twice their coordinates throughout, so the
//! half-extents of boxes stay integral and no division is needed.

use vstd::prelude::*;

use crate::world::{player_pos_ok, span_ok, Player, Span, GRAVITY, TILE_DIMENSIONS};

verus! {

/// The five mutually exclusive outcomes of the overlap test. A pair
/// that does not overlap has no outcome at all.
#[derive(Clone, Copy, Debug, PartialEq, Eq, Structural)]
pub enum Contact {
    /// Shallow overlap on the span's left side.
    Left,
    /// Shallow overlap on the span's right side.
    Right,
    /// The player sits above the span with shallow overlap on the
    /// player's bottom edge.
    Top,
    /// The player sits below the span.
    Bottom,
    /// The player's centre lies within the span: deep, ambiguous
    /// overlap.
    Inside,
}

/// Twice the player box's left edge.
pub open spec fn player_min_x(p: Player) -> int {
    2 * p.x - TILE_DIMENSIONS
}

/// Twice the player box's right edge.
pub open spec fn player_max_x(p: Player) -> int {
    2 * p.x + TILE_DIMENSIONS
}

/// Twice the player box's bottom edge.
pub open spec fn player_min_y(p: Player) -> int {
    2 * p.y - TILE_DIMENSIONS
}

/// Twice the player box's top edge.
pub open spec fn player_max_y(p: Player) -> int {
    2 * p.y + TILE_DIMENSIONS
}

/// Twice the span box's left edge.
pub open spec fn span_min_x(s: Span) -> int {
    2 * s.x - s.width
}

/// Twice the span box's right edge.
pub open spec fn span_max_x(s: Span) -> int {
    2 * s.x + s.width
}

/// Twice the span box's bottom edge.
pub open spec fn span_min_y(s: Span) -> int {
    2 * s.y - TILE_DIMENSIONS
}

/// Twice the span box's top edge.
pub open spec fn span_max_y(s: Span) -> int {
    2 * s.y + TILE_DIMENSIONS
}

/// The two boxes overlap strictly on both axes; touching edges do not
/// count as overlap.
pub open spec fn boxes_overlap(p: Player, s: Span) -> bool {
    &&& player_min_x(p) < span_max_x(s)
    &&& player_max_x(p) > span_min_x(s)
    &&& player_min_y(p) < span_max_y(s)
    &&& player_max_y(p) > span_min_y(s)
}

/// The player's centre lies strictly within the span's box.
pub open spec fn center_inside(p: Player, s: Span) -> bool {
    &&& span_min_x(s) < 2 * p.x < span_max_x(s)
    &&& span_min_y(s) < 2 * p.y < span_max_y(s)
}

/// The horizontal outcome candidate: the side of the span whose
/// vertical edge the player box straddles, if it straddles exactly one,
/// together with the (doubled) penetration depth there.
pub open spec fn x_contact(p: Player, s: Span) -> Option<(Contact, int)> {
    if player_min_x(p) < span_min_x(s) && player_max_x(p) > span_min_x(s) && player_max_x(p)
        < span_max_x(s) {
        Some((Contact::Left, player_max_x(p) - span_min_x(s)))
    } else if player_min_x(p) > span_min_x(s) && player_min_x(p) < span_max_x(s) && player_max_x(p)
        > span_max_x(s) {
        Some((Contact::Right, span_max_x(s) - player_min_x(p)))
    } else {
        None
    }
}

/// The vertical outcome candidate, as `x_contact` for horizontal edges.
pub open spec fn y_contact(p: Player, s: Span) -> Option<(Contact, int)> {
    if player_min_y(p) < span_min_y(s) && player_max_y(p) > span_min_y(s) && player_max_y(p)
        < span_max_y(s) {
        Some((Contact::Bottom, player_max_y(p) - span_min_y(s)))
    } else if player_min_y(p) > span_min_y(s) && player_min_y(p) < span_max_y(s) && player_max_y(p)
        > span_max_y(s) {
        Some((Contact::Top, span_max_y(s) - player_min_y(p)))
    } else {
        None
    }
}

/// The collision test. No overlap reports nothing; a centre inside the
/// span is the deep, ambiguous `Inside` outcome; otherwise the edge
/// outcome with the smaller penetration depth wins, the horizontal one
/// on ties, and a pair with no edge candidate at all falls back to
/// `Inside`.
pub open spec fn classify_spec(p: Player, s: Span) -> Option<Contact> {
    if !boxes_overlap(p, s) {
        None
    } else if center_inside(p, s) {
        Some(Contact::Inside)
    } else {
        match (x_contact(p, s), y_contact(p, s)) {
            (Some((cx, dx)), Some((cy, dy))) => if dy < dx {
                Some(cy)
            } else {
                Some(cx)
            },
            (Some((cx, _)), None) => Some(cx),
            (None, Some((cy, _))) => Some(cy),
            (None, None) => Some(Contact::Inside),
        }
    }
}

/// The correction one span applies to the running player state `p`,
/// with the overlap classified against the pass-entry snapshot `snap`,
/// by outcome: `Top` and `Inside` rest the player on the span and stop
/// the fall; `Bottom` pins the player below with a corrective downward
/// velocity; `Left` and `Right` push the player beside the span and
/// stop the horizontal motion. No overlap changes nothing.
pub open spec fn resolve_span_spec(snap: Player, p: Player, s: Span) -> Player {
    match classify_spec(snap, s) {
        None => p,
        Some(Contact::Top) => Player {
            x: p.x,
            y: (s.y + TILE_DIMENSIONS) as i64,
            vx: p.vx,
            vy: 0,
        },
        Some(Contact::Bottom) => Player {
            x: p.x,
            y: (s.y - TILE_DIMENSIONS) as i64,
            vx: p.vx,
            vy: (-GRAVITY) as i64,
        },
        Some(Contact::Left) => Player { x: (s.x - TILE_DIMENSIONS) as i64, y: p.y, vx: 0, vy: p.vy },
        Some(Contact::Right) => Player {
            x: (s.x + TILE_DIMENSIONS) as i64,
            y: p.y,
            vx: 0,
            vy: p.vy,
        },
        Some(Contact::Inside) => Player {
            x: p.x,
            y: (s.y + TILE_DIMENSIONS) as i64,
            vx: p.vx,
            vy: 0,
        },
    }
}

/// The running player state after the first `n` spans have applied
/// their corrections in order, every overlap classified against the
/// snapshot `snap`.
pub open spec fn resolve_prefix(snap: Player, p: Player, spans: Seq<Span>, n: int) -> Player
    decreases n,
{
    if n <= 0 {
        p
    } else {
        resolve_span_spec(snap, resolve_prefix(snap, p, spans, n - 1), spans[n - 1])
    }
}

/// The player state after the whole span list has been resolved, in
/// emission order, last write winning: every span is tested against the
/// position the pass started from, never against an earlier span's
/// correction.
pub open spec fn resolve_seq_spec(p: Player, spans: Seq<Span>) -> Player {
    resolve_prefix(p, p, spans, spans.len() as int)
}

/// The overlap test on concrete values.
pub fn classify(p: Player, s: Span) -> (r: Option<Contact>)
    requires
        player_pos_ok(p),
        span_ok(s),
    ensures
        r == classify_spec(p, s),
{
    let p_min_x: i64 = 2 * p.x - TILE_DIMENSIONS;
    let p_max_x: i64 = 2 * p.x + TILE_DIMENSIONS;
    let p_min_y: i64 = 2 * p.y - TILE_DIMENSIONS;
    let p_max_y: i64 = 2 * p.y + TILE_DIMENSIONS;
    let s_min_x: i64 = 2 * s.x - s.width;
    let s_max_x: i64 = 2 * s.x + s.width;
    let s_min_y: i64 = 2 * s.y - TILE_DIMENSIONS;
    let s_max_y: i64 = 2 * s.y + TILE_DIMENSIONS;

    if !(p_min_x < s_max_x && p_max_x > s_min_x && p_min_y < s_max_y && p_max_y > s_min_y) {
        return None;
    }
    if s_min_x < 2 * p.x && 2 * p.x < s_max_x && s_min_y < 2 * p.y && 2 * p.y < s_max_y {
        return Some(Contact::Inside);
    }
    let x_hit: Option<(Contact, i64)> = if p_min_x < s_min_x && p_max_x > s_min_x && p_max_x
        < s_max_x {
        Some((Contact::Left, p_max_x - s_min_x))
    } else if p_min_x > s_min_x && p_min_x < s_max_x && p_max_x > s_max_x {
        Some((Contact::Right, s_max_x - p_min_x))
    } else {
        None
    };
    let y_hit: Option<(Contact, i64)> = if p_min_y < s_min_y && p_max_y > s_min_y && p_max_y
        < s_max_y {
        Some((Contact::Bottom, p_max_y - s_min_y))
    } else if p_min_y > s_min_y && p_min_y < s_max_y && p_max_y > s_max_y {
        Some((Contact::Top, s_max_y - p_min_y))
    } else {
        None
    };
    match (x_hit, y_hit) {
        (Some((cx, dx)), Some((cy, dy))) => if dy < dx {
            Some(cy)
        } else {
            Some(cx)
        },
        (Some((cx, _)), None) => Some(cx),
        (None, Some((cy, _))) => Some(cy),
        (None, None) => Some(Contact::Inside),
    }
}

/// Applies one span's correction to the running player state, if the
/// span overlaps the pass-entry snapshot.
pub fn resolve_span(p: &mut Player, snapshot: &Player, s: &Span)
    requires
        player_pos_ok(*snapshot),
        span_ok(*s),
    ensures
        *final(p) == resolve_span_spec(*snapshot, *old(p), *s),
        player_pos_ok(*old(p)) ==> player_pos_ok(*final(p)),
{
    match classify(*snapshot, *s) {
        None => {},
        Some(Contact::Top) => {
            p.vy = 0;
            p.y = s.y + TILE_DIMENSIONS;
        },
        Some(Contact::Bottom) => {
            p.vy = -GRAVITY;
            p.y = s.y - TILE_DIMENSIONS;
        },
        Some(Contact::Left) => {
            p.vx = 0;
            p.x = s.x - TILE_DIMENSIONS;
        },
        Some(Contact::Right) => {
            p.vx = 0;
            p.x = s.x + TILE_DIMENSIONS;
        },
        Some(Contact::Inside) => {
            p.vy = 0;
            p.y = s.y + TILE_DIMENSIONS;
        },
    }
}

/// Resolves the player against every span, in emission order. The
/// player position is snapshotted once at entry and every overlap test
/// uses it; the corrections accumulate on the live state.
pub fn resolve_all(p: &mut Player, spans: &Vec<Span>)
    requires
        player_pos_ok(*old(p)),
        forall|i: int| 0 <= i < spans@.len() ==> span_ok(#[trigger] spans@[i]),
    ensures
        *final(p) == resolve_seq_spec(*old(p), spans@),
        player_pos_ok(*final(p)),
{
    let snapshot: Player = *p;
    let n: usize = spans.len();
    let mut i: usize = 0;
    while i < n
        invariant
            n == spans@.len(),
            i <= n,
            forall|j: int| 0 <= j < spans@.len() ==> span_ok(#[trigger] spans@[j]),
            snapshot == *old(p),
            player_pos_ok(snapshot),
            *p == resolve_prefix(snapshot, snapshot, spans@, i as int),
            player_pos_ok(*p),
        decreases n - i,
    {
        resolve_span(p, &snapshot, &spans[i]);
        i = i + 1;
    }
}

/// The player is more than one tile away from the span on both axes.
pub open spec fn far_from_span(p: Player, s: Span) -> bool {
    &&& p.x - s.x > TILE_DIMENSIONS || s.x - p.x > TILE_DIMENSIONS
    &&& p.y - s.y > TILE_DIMENSIONS || s.y - p.y > TILE_DIMENSIONS
}

/// Directional correctness for the resting case: a player above the
/// span, horizontally over it, whose bottom edge overlaps it by less
/// than half a tile, gets the `Top` outcome, a vertical velocity of
/// zero, and a position exactly one tile above the span's centre.
pub proof fn lemma_top_resolution(p: Player, s: Span)
    requires
        span_ok(s),
        player_pos_ok(p),
        TILE_DIMENSIONS <= 2 * (p.y - s.y) < 2 * TILE_DIMENSIONS,
        TILE_DIMENSIONS - s.width <= 2 * (p.x - s.x) <= s.width - TILE_DIMENSIONS,
    ensures
        classify_spec(p, s) == Some(Contact::Top),
        resolve_span_spec(p, p, s) == (Player {
            x: p.x,
            y: (s.y + TILE_DIMENSIONS) as i64,
            vx: p.vx,
            vy: 0,
        }),
{
}

/// Inside fallback: a player whose centre lies strictly inside the
/// span's box gets the `Inside` outcome and exactly the same correction
/// as `Top`, so the player is never left embedded.
pub proof fn lemma_inside_fallback(p: Player, s: Span)
    requires
        span_ok(s),
        player_pos_ok(p),
        center_inside(p, s),
    ensures
        classify_spec(p, s) == Some(Contact::Inside),
        resolve_span_spec(p, p, s) == (Player {
            x: p.x,
            y: (s.y + TILE_DIMENSIONS) as i64,
            vx: p.vx,
            vy: 0,
        }),
{
}

/// A span the snapshot is far from reports no outcome and leaves any
/// running state alone.
pub proof fn lemma_far_span_no_contact(p: Player, s: Span)
    requires
        far_from_span(p, s),
    ensures
        classify_spec(p, s) == None::<Contact>,
        forall|q: Player| #[trigger] resolve_span_spec(p, q, s) == q,
{
}

proof fn lemma_no_overlap_prefix(p: Player, spans: Seq<Span>, n: int)
    requires
        n <= spans.len(),
        forall|i: int| 0 <= i < spans.len() ==> far_from_span(p, #[trigger] spans[i]),
    ensures
        resolve_prefix(p, p, spans, n) == p,
    decreases n,
{
    if n > 0 {
        lemma_no_overlap_prefix(p, spans, n - 1);
        lemma_far_span_no_contact(p, spans[n - 1]);
    }
}

/// No-overlap idempotence: a player more than one tile away from every
/// span on both axes comes out of the whole resolver pass with position
/// and velocity unchanged.
pub proof fn lemma_no_overlap_idempotence(p: Player, spans: Seq<Span>)
    requires
        forall|i: int| 0 <= i < spans.len() ==> far_from_span(p, #[trigger] spans[i]),
    ensures
        resolve_seq_spec(p, spans) == p,
{
    lemma_no_overlap_prefix(p, spans, spans.len() as int);
}

} // verus!
