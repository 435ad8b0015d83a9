use platformer_core::input::apply_input;
use platformer_core::world::{Player, JUMP_SPEED, MOVEMENT_SPEED};

#[test]
fn jump_sets_vertical_velocity() {
    let mut p = Player { x: 0, y: 0, vx: 0, vy: -500_000 };
    apply_input(&mut p, true, false, false, 16);
    assert_eq!(p.vy, JUMP_SPEED);
    assert_eq!(p.x, 0);
}

#[test]
fn move_right_advances_position() {
    let mut p = Player { x: 1_000_000, y: 0, vx: 0, vy: 0 };
    apply_input(&mut p, false, true, false, 16);
    assert_eq!(p.x, 1_000_000 + MOVEMENT_SPEED * 16);
    assert_eq!(p.vy, 0);
}

#[test]
fn move_left_retreats_position() {
    let mut p = Player { x: 1_000_000, y: 0, vx: 0, vy: 0 };
    apply_input(&mut p, false, false, true, 16);
    assert_eq!(p.x, 1_000_000 - MOVEMENT_SPEED * 16);
}

#[test]
fn opposite_keys_cancel() {
    let mut p = Player { x: 7, y: 8, vx: 9, vy: 10 };
    apply_input(&mut p, false, true, true, 16);
    assert_eq!(p, Player { x: 7, y: 8, vx: 9, vy: 10 });
}
