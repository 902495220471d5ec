use last_climb::grid::GridPos;
use last_climb::state::GameState;
use last_climb::entities::Player;
use last_climb::entities::Speed;
use last_climb::movement::MoveEvent;
use last_climb::movement::MoveInput;
use last_climb::movement::apply_gravity;
use last_climb::movement::apply_player_visual_effects;
use last_climb::movement::move_player_from_input;
use last_climb::movement::reset_turn_gate;
use last_climb::tiles::TileMap;
use last_climb::tiles::TileType;

fn pos(col: i32, row: i32) -> GridPos {
    GridPos { col, row }
}

fn input(left: bool, right: bool, up: bool, down: bool) -> MoveInput {
    MoveInput { left, right, up, down }
}

const RIGHT: MoveInput = MoveInput { left: false, right: true, up: false, down: false };
const LEFT: MoveInput = MoveInput { left: true, right: false, up: false, down: false };
const UP: MoveInput = MoveInput { left: false, right: false, up: true, down: false };
const DOWN: MoveInput = MoveInput { left: false, right: false, up: false, down: true };

/// A solid floor under row `row`, spanning the given columns.
fn floor(map: &mut TileMap, cols: std::ops::Range<i32>, row: i32) {
    for col in cols {
        map.insert(pos(col, row), TileType::Wall);
    }
}

#[test]
fn wall_blocks_side_step() {
    let mut map = TileMap::new();
    map.insert(pos(3, 2), TileType::Wall);
    let mut gs = GameState::default();
    let mut player = Player::spawn(pos(2, 2));
    let ev = move_player_from_input(&map, &mut gs, &mut player, RIGHT);
    assert_eq!(player.pos, pos(2, 2));
    assert_eq!(gs.player_num_actions_taken, 0);
    assert!(!gs.world_should_update);
    assert_eq!(ev, None);
}

#[test]
fn wall_with_support_below_can_be_stepped_on() {
    let mut map = TileMap::new();
    map.insert(pos(3, 2), TileType::Wall);
    map.insert(pos(3, 1), TileType::Wall);
    map.insert(pos(2, 1), TileType::Wall);
    let mut gs = GameState::default();
    let mut player = Player::spawn(pos(2, 2));
    let ev = move_player_from_input(&map, &mut gs, &mut player, RIGHT);
    assert_eq!(player.pos, pos(3, 2));
    assert_eq!(gs.player_num_actions_taken, 1);
    assert_eq!(ev, Some(MoveEvent::Lateral));
}

#[test]
fn open_lateral_step_commits_and_records_previous() {
    let mut map = TileMap::new();
    floor(&mut map, 2..5, 1);
    let mut gs = GameState::default();
    let mut player = Player::spawn(pos(2, 2));
    let ev = move_player_from_input(&map, &mut gs, &mut player, RIGHT);
    assert_eq!(player.pos, pos(3, 2));
    assert_eq!(gs.player_previous_pos, pos(2, 2));
    assert!(!gs.player_is_falling);
    assert_eq!(ev, Some(MoveEvent::Lateral));
}

#[test]
fn ladder_permits_climbing_up() {
    let mut map = TileMap::new();
    map.insert(pos(2, 2), TileType::Ladder);
    map.insert(pos(2, 3), TileType::Ladder);
    map.insert(pos(2, 4), TileType::Ladder);
    let mut gs = GameState::default();
    let mut player = Player::spawn(pos(2, 2));
    let ev = move_player_from_input(&map, &mut gs, &mut player, UP);
    assert_eq!(player.pos, pos(2, 3));
    assert_eq!(ev, Some(MoveEvent::ClimbUp));
}

#[test]
fn climbing_down_a_ladder_reports_climb_down() {
    let mut map = TileMap::new();
    map.insert(pos(2, 1), TileType::Ladder);
    map.insert(pos(2, 2), TileType::Ladder);
    map.insert(pos(2, 3), TileType::Ladder);
    map.insert(pos(2, 4), TileType::Ladder);
    let mut gs = GameState::default();
    let mut player = Player::spawn(pos(2, 3));
    let ev = move_player_from_input(&map, &mut gs, &mut player, DOWN);
    assert_eq!(player.pos, pos(2, 2));
    assert_eq!(ev, Some(MoveEvent::ClimbDown));
}

#[test]
fn vertical_step_into_open_air_is_rejected() {
    let mut map = TileMap::new();
    map.insert(pos(2, 1), TileType::Wall);
    let mut gs = GameState::default();
    let mut player = Player::spawn(pos(2, 2));
    let ev = move_player_from_input(&map, &mut gs, &mut player, UP);
    assert_eq!(player.pos, pos(2, 2));
    assert_eq!(ev, None);
}

#[test]
fn diagonal_attempt_can_commit() {
    let mut map = TileMap::new();
    map.insert(pos(2, 1), TileType::Wall);
    map.insert(pos(3, 2), TileType::Ladder);
    map.insert(pos(3, 3), TileType::Ladder);
    map.insert(pos(3, 4), TileType::Ladder);
    let mut gs = GameState::default();
    let mut player = Player::spawn(pos(2, 2));
    let ev = move_player_from_input(&map, &mut gs, &mut player, input(false, true, true, false));
    assert_eq!(player.pos, pos(3, 3));
    assert_eq!(ev, Some(MoveEvent::ClimbUp));
}

#[test]
fn out_of_bounds_column_is_rejected() {
    let mut map = TileMap::new();
    floor(&mut map, 0..2, 1);
    let mut gs = GameState::default();
    let mut player = Player::spawn(pos(0, 2));
    let ev = move_player_from_input(&map, &mut gs, &mut player, LEFT);
    assert_eq!(player.pos, pos(0, 2));
    assert_eq!(ev, None);
}

#[test]
fn step_into_open_air_falls_one_row() {
    let mut map = TileMap::new();
    map.insert(pos(2, 1), TileType::Wall);
    let mut gs = GameState::default();
    let mut player = Player::spawn(pos(2, 2));
    let ev = move_player_from_input(&map, &mut gs, &mut player, RIGHT);
    // The lateral step to (3, 2) commits, then gravity pulls one row.
    assert_eq!(player.pos, pos(3, 1));
    assert!(gs.player_is_falling);
    assert_eq!(player.health.0, 100);
    assert_eq!(ev, None);
}

#[test]
fn descending_while_falling_steps_exactly_one_row() {
    let mut map = TileMap::new();
    let mut gs = GameState::default();
    let mut player = Player::spawn(pos(5, 10));
    let ev = move_player_from_input(&map, &mut gs, &mut player, DOWN);
    // The downward input commits the step and gravity does not double it.
    assert_eq!(player.pos, pos(5, 9));
    assert!(gs.player_is_falling);
    assert_eq!(ev, None);
}

#[test]
fn fatal_fall_zeroes_health() {
    let mut map = TileMap::new();
    let mut gs = GameState::default();
    let mut player = Player::spawn(pos(2, 0));
    let ev = move_player_from_input(&map, &mut gs, &mut player, RIGHT);
    assert_eq!(player.pos, pos(3, -1));
    assert_eq!(player.health.0, 0);
    assert_eq!(ev, Some(MoveEvent::PlayerHit));
}

#[test]
fn gravity_is_monotonic_while_unsupported() {
    let map = TileMap::new();
    let mut gs = GameState::default();
    let mut player = Player::spawn(pos(5, 10));
    apply_gravity(&map, &mut gs, player.pos.row, &mut player);
    assert_eq!(player.pos, pos(5, 9));
    apply_gravity(&map, &mut gs, player.pos.row, &mut player);
    assert_eq!(player.pos, pos(5, 8));
    apply_gravity(&map, &mut gs, player.pos.row, &mut player);
    assert_eq!(player.pos, pos(5, 7));
    assert!(gs.player_is_falling);
}

#[test]
fn gravity_stops_on_support() {
    let mut map = TileMap::new();
    map.insert(pos(5, 8), TileType::Wall);
    let mut gs = GameState::default();
    let mut player = Player::spawn(pos(5, 10));
    apply_gravity(&map, &mut gs, player.pos.row, &mut player);
    assert_eq!(player.pos, pos(5, 9));
    apply_gravity(&map, &mut gs, player.pos.row, &mut player);
    assert_eq!(player.pos, pos(5, 9));
    assert!(!gs.player_is_falling);
}

#[test]
fn topmost_ladder_cell_keeps_the_player_falling() {
    let mut map = TileMap::new();
    map.insert(pos(5, 8), TileType::Ladder);
    let mut gs = GameState::default();
    let mut player = Player::spawn(pos(5, 9));
    // Below is the ladder's top cell and the player's own cell is open:
    // gravity still pulls.
    apply_gravity(&map, &mut gs, player.pos.row, &mut player);
    assert_eq!(player.pos, pos(5, 8));
    assert!(gs.player_is_falling);
}

#[test]
fn turn_gate_fires_on_every_third_move_with_speed_three() {
    let mut map = TileMap::new();
    floor(&mut map, 2..13, 1);
    let mut gs = GameState::default();
    let mut player = Player::spawn(pos(2, 2));
    player.speed = Speed(3);
    let mut gates = Vec::new();
    for _ in 0..9 {
        let ev = move_player_from_input(&map, &mut gs, &mut player, RIGHT);
        assert_eq!(ev, Some(MoveEvent::Lateral));
        gates.push(gs.world_should_update);
    }
    assert_eq!(
        gates,
        vec![false, false, true, false, false, true, false, false, true]
    );
    assert_eq!(gs.player_num_actions_taken, 9);
}

#[test]
fn invalid_move_resets_gate() {
    let mut map = TileMap::new();
    floor(&mut map, 2..4, 1);
    map.insert(pos(4, 2), TileType::Wall);
    let mut gs = GameState::default();
    let mut player = Player::spawn(pos(2, 2));
    let ev = move_player_from_input(&map, &mut gs, &mut player, RIGHT);
    assert_eq!(ev, Some(MoveEvent::Lateral));
    assert!(gs.world_should_update);
    // The next frame's move hits the unsupported wall at (4, 2): rejected,
    // and the update flag drops again.
    let ev = move_player_from_input(&map, &mut gs, &mut player, RIGHT);
    assert_eq!(ev, None);
    assert!(!gs.world_should_update);
    assert_eq!(player.pos, pos(3, 2));
}

#[test]
fn visual_flags_follow_turn_counter_and_tiles() {
    let mut map = TileMap::new();
    map.insert(pos(2, 1), TileType::Wall);
    map.insert(pos(4, 2), TileType::Ladder);
    map.insert(pos(4, 3), TileType::Ladder);
    let mut gs = GameState::default();
    let mut player = Player::spawn(pos(2, 2));
    player.speed = Speed(2);

    // Standing on the floor before any move.
    let v = apply_player_visual_effects(&map, &gs, &player);
    assert!(!v.mid_turn);
    assert!(!v.climbing);
    assert!(!v.falling);

    // One action into a two-action turn: shown mid-turn.
    gs.player_num_actions_taken = 1;
    let v = apply_player_visual_effects(&map, &gs, &player);
    assert!(v.mid_turn);

    // In a ladder cell with more ladder above: climbing.
    player.pos = pos(4, 2);
    let v = apply_player_visual_effects(&map, &gs, &player);
    assert!(v.climbing);
    assert!(v.falling); // nothing below the ladder's bottom cell

    // In open air above the ladder's top cell: falling, not climbing.
    player.pos = pos(4, 4);
    let v = apply_player_visual_effects(&map, &gs, &player);
    assert!(!v.climbing);
    assert!(v.falling);
}

#[test]
fn action_counter_accepts_its_largest_value() {
    let mut map = TileMap::new();
    floor(&mut map, 2..5, 1);
    let mut gs = GameState::default();
    gs.player_num_actions_taken = u32::MAX - 1;
    let mut player = Player::spawn(pos(2, 2));
    let ev = move_player_from_input(&map, &mut gs, &mut player, RIGHT);
    assert_eq!(ev, Some(MoveEvent::Lateral));
    assert_eq!(gs.player_num_actions_taken, u32::MAX);
    assert!(gs.world_should_update);
}

#[test]
fn reset_turn_gate_only_lowers_the_gate() {
    let mut gs = GameState::default();
    gs.world_should_update = true;
    gs.player_num_actions_taken = 7;
    reset_turn_gate(&mut gs);
    assert!(!gs.world_should_update);
    assert_eq!(gs.player_num_actions_taken, 7);
}
