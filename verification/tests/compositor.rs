use platformer_core::compositor::{composite_spans, depth_pass, tiles_adjacent};
use platformer_core::world::{Span, Tile, TILE_DIMENSIONS};

#[test]
fn horizontal_neighbours_are_connected() {
    // Tiles at (0, 0) and (64, 0) world units: the anchor's composite
    // width doubles to 128 units.
    let tiles = vec![Tile { x: 0, y: 0 }, Tile { x: 64_000_000, y: 0 }];
    let pass = composite_spans(&tiles);
    assert_eq!(pass.widths, vec![128_000_000, 64_000_000]);
    assert_eq!(pass.spans, vec![Span { x: 0, y: 0, width: 128_000_000 }]);
}

#[test]
fn vertical_neighbours_are_not_connected() {
    // Tiles at (0, 0) and (0, 64) world units: rows differ, no merge.
    let tiles = vec![Tile { x: 0, y: 0 }, Tile { x: 0, y: 64_000_000 }];
    let pass = composite_spans(&tiles);
    assert_eq!(pass.widths, vec![64_000_000, 64_000_000]);
    assert_eq!(pass.spans, vec![Span { x: 0, y: 0, width: 64_000_000 }]);
}

#[test]
fn run_of_five_grows_anchor_to_five_tiles() {
    let mut tiles = Vec::new();
    for i in 0..5i64 {
        tiles.push(Tile { x: i * TILE_DIMENSIONS, y: 0 });
    }
    let pass = composite_spans(&tiles);
    assert_eq!(pass.widths[0], 5 * TILE_DIMENSIONS);
    for k in 1..5 {
        assert_eq!(pass.widths[k], TILE_DIMENSIONS);
    }
    // The anchor's span snapshots the width it held when emitted: two
    // tiles at that moment; later tiles keep the one-tile base.
    assert_eq!(pass.spans.len(), 4);
    assert_eq!(pass.spans[0], Span { x: 0, y: 0, width: 2 * TILE_DIMENSIONS });
    for k in 1..4 {
        assert_eq!(pass.spans[k].width, TILE_DIMENSIONS);
    }
}

#[test]
fn a_break_restarts_the_run() {
    // Two adjacent tiles, a gap, then two more adjacent tiles.
    let tiles = vec![
        Tile { x: 0, y: 0 },
        Tile { x: 64_000_000, y: 0 },
        Tile { x: 500_000_000, y: 0 },
        Tile { x: 564_000_000, y: 0 },
    ];
    let pass = composite_spans(&tiles);
    assert_eq!(pass.widths, vec![128_000_000, 64_000_000, 128_000_000, 64_000_000]);
}

#[test]
fn no_tiles_or_one_tile_yield_no_spans() {
    let none: Vec<Tile> = Vec::new();
    let pass = composite_spans(&none);
    assert!(pass.spans.is_empty());
    assert!(pass.widths.is_empty());

    let one = vec![Tile { x: 0, y: 0 }];
    let pass = composite_spans(&one);
    assert!(pass.spans.is_empty());
    assert_eq!(pass.widths, vec![64_000_000]);
}

#[test]
fn adjacency_boundary_is_inclusive() {
    let a = Tile { x: 0, y: 0 };
    let just_touching = Tile { x: TILE_DIMENSIONS, y: 0 };
    let too_far = Tile { x: TILE_DIMENSIONS + 1, y: 0 };
    let offset_row = Tile { x: TILE_DIMENSIONS, y: 1 };
    assert!(tiles_adjacent(&a, &just_touching));
    assert!(!tiles_adjacent(&a, &too_far));
    assert!(!tiles_adjacent(&a, &offset_row));
}

#[test]
fn depth_pass_multiplies_all_but_the_last() {
    let mut depths = vec![1, 2, 3, 4];
    depth_pass(&mut depths);
    assert_eq!(depths, vec![-1, -4, -9, 4]);
}

#[test]
fn depth_pass_leaves_a_single_entry_alone() {
    let mut depths = vec![7];
    depth_pass(&mut depths);
    assert_eq!(depths, vec![7]);
}
