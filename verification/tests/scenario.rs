use platformer_core::integrator::integrate;
use platformer_core::layout::standard_layout;
use platformer_core::tick::{collision_tick, simulation_tick};
use platformer_core::world::{Player, Tile, TILE_DIMENSIONS};

#[test]
fn fall_onto_ground_tile_and_rest() {
    // One ground tile at (0, -320) world units; a second, distant tile
    // makes the scan emit the ground tile as a one-tile span.
    let tiles = vec![Tile { x: 0, y: -320_000_000 }, Tile { x: 500_000_000, y: -320_000_000 }];
    let mut p = Player { x: 0, y: 0, vx: 0, vy: 0 };

    for _ in 0..2 {
        integrate(&mut p, 16);
        collision_tick(&mut p, &tiles);
    }
    // After two ticks of 16 ms the player has fallen 0.768 units.
    assert_eq!(p.y, -768_000);

    for _ in 2..26 {
        integrate(&mut p, 16);
        collision_tick(&mut p, &tiles);
    }
    // Still above the span: no contact yet, velocity keeps building.
    assert_eq!(p.y, -249_600_000);
    assert_eq!(p.vy, -48_000 * 26);

    integrate(&mut p, 16);
    assert_eq!(p.y, -269_568_000);
    collision_tick(&mut p, &tiles);
    // The resolver rests the player one tile above the span's centre
    // and stops the fall.
    assert_eq!(p.y, -320_000_000 + TILE_DIMENSIONS);
    assert_eq!(p.vy, 0);
    assert_eq!(p.x, 0);
    assert_eq!(p.vx, 0);
}

#[test]
fn whole_tick_applies_jump_over_empty_ground() {
    let tiles = vec![Tile { x: 0, y: -320_000_000 }, Tile { x: 500_000_000, y: -320_000_000 }];
    let mut p = Player { x: 0, y: 0, vx: 0, vy: 0 };
    simulation_tick(&mut p, &tiles, true, true, false, 16);
    // Integration from rest leaves y alone; the jump key then sets the
    // climb speed, and the right key advances x; nothing collides.
    assert_eq!(p.y, 0);
    assert_eq!(p.vy, 1_000_000);
    assert_eq!(p.x, 200_000 * 16);
    assert_eq!(p.vx, 0);
}

#[test]
fn standard_layout_matches_the_fixed_plan() {
    let floor: i64 = -384_000_000;
    let tiles = standard_layout(floor);
    assert_eq!(tiles.len(), 402);
    assert_eq!(tiles[0], Tile { x: 3 * TILE_DIMENSIONS, y: floor + 3 * TILE_DIMENSIONS });
    assert_eq!(tiles[1], Tile { x: 2 * TILE_DIMENSIONS, y: floor + TILE_DIMENSIONS });
    assert_eq!(tiles[2], Tile { x: -200 * TILE_DIMENSIONS, y: floor });
    assert_eq!(tiles[401], Tile { x: 199 * TILE_DIMENSIONS, y: floor });
    for k in 3..402 {
        assert_eq!(tiles[k].x - tiles[k - 1].x, TILE_DIMENSIONS);
        assert_eq!(tiles[k].y, floor);
    }
}

#[test]
fn player_rests_on_the_standard_ground_row() {
    let floor: i64 = -384_000_000;
    let tiles = standard_layout(floor);
    let mut p = Player { x: 0, y: 0, vx: 0, vy: 0 };
    for _ in 0..60 {
        simulation_tick(&mut p, &tiles, false, false, false, 16);
    }
    // The fall has long since been clamped to the ground row's top.
    assert_eq!(p.y, floor + TILE_DIMENSIONS);
    assert_eq!(p.vy, 0);
    assert_eq!(p.x, 0);
}
