use last_climb::grid::GridPos;
use last_climb::state::GameState;
use last_climb::entities::Damage;
use last_climb::entities::FallingIce;
use last_climb::entities::Health;
use last_climb::entities::Player;
use last_climb::entities::Speed;
use last_climb::combat::apply_damage_to_player;
use last_climb::hazard::hazards_to_obstacles;
use last_climb::hazard::move_falling_ice;
use last_climb::hazard::obstacles_to_hazards;
use last_climb::hazard::spawn_falling_ice_over_player;
use last_climb::tiles::TileMap;
use last_climb::tiles::TileType;

fn pos(col: i32, row: i32) -> GridPos {
    GridPos { col, row }
}

#[test]
fn latent_ice_above_player_activates() {
    let mut map = TileMap::new();
    map.insert(pos(5, 4), TileType::Ladder);
    map.insert(pos(5, 8), TileType::FallingIce);
    let activated = spawn_falling_ice_over_player(&mut map, pos(5, 2));
    assert_eq!(activated, Some(pos(5, 8)));
    // The latent tile left the static map.
    assert_eq!(map.get(pos(5, 8)), None);
    // Ladders are transparent to the scan and stay put.
    assert_eq!(map.get(pos(5, 4)), Some(TileType::Ladder));
}

#[test]
fn wall_stops_the_scan() {
    let mut map = TileMap::new();
    map.insert(pos(5, 5), TileType::Wall);
    map.insert(pos(5, 8), TileType::FallingIce);
    let activated = spawn_falling_ice_over_player(&mut map, pos(5, 2));
    assert_eq!(activated, None);
    assert_eq!(map.get(pos(5, 8)), Some(TileType::FallingIce));
}

#[test]
fn only_the_first_ice_found_activates() {
    let mut map = TileMap::new();
    map.insert(pos(5, 6), TileType::FallingIce);
    map.insert(pos(5, 9), TileType::FallingIce);
    let activated = spawn_falling_ice_over_player(&mut map, pos(5, 2));
    assert_eq!(activated, Some(pos(5, 6)));
    assert_eq!(map.get(pos(5, 6)), None);
    assert_eq!(map.get(pos(5, 9)), Some(TileType::FallingIce));
}

#[test]
fn ice_in_another_column_is_ignored() {
    let mut map = TileMap::new();
    map.insert(pos(6, 8), TileType::FallingIce);
    let activated = spawn_falling_ice_over_player(&mut map, pos(5, 2));
    assert_eq!(activated, None);
    assert_eq!(map.get(pos(6, 8)), Some(TileType::FallingIce));
}

#[test]
fn ice_below_player_row_is_not_scanned() {
    let mut map = TileMap::new();
    map.insert(pos(5, 1), TileType::FallingIce);
    let activated = spawn_falling_ice_over_player(&mut map, pos(5, 2));
    assert_eq!(activated, None);
}

#[test]
fn hazards_step_down_one_row_per_tick() {
    let mut ice = vec![
        FallingIce::activate(pos(5, 8), Damage(20)),
        FallingIce::activate(pos(3, 2), Damage(20)),
    ];
    move_falling_ice(&mut ice);
    assert_eq!(ice.len(), 2);
    assert_eq!(ice[0].pos, pos(5, 7));
    assert_eq!(ice[1].pos, pos(3, 1));
    move_falling_ice(&mut ice);
    assert_eq!(ice[0].pos, pos(5, 6));
    assert_eq!(ice[1].pos, pos(3, 0));
}

#[test]
fn hazard_despawns_when_it_leaves_the_grid() {
    let mut ice = vec![
        FallingIce::activate(pos(5, 0), Damage(20)),
        FallingIce::activate(pos(6, 9), Damage(20)),
    ];
    move_falling_ice(&mut ice);
    // The first hazard stepped to row -1 and despawned.
    assert_eq!(ice.len(), 1);
    assert_eq!(ice[0].pos, pos(6, 8));
}

#[test]
fn activated_hazard_has_one_hit_point() {
    let ice = FallingIce::activate(pos(5, 8), Damage(20));
    assert_eq!(ice.health, Health(1));
    assert_eq!(ice.damage, Damage(20));
    assert_eq!(ice.pos, pos(5, 8));
}

#[test]
fn hazard_round_trips_through_combat_form() {
    let ice = vec![FallingIce::activate(pos(5, 8), Damage(20))];
    let obs = hazards_to_obstacles(&ice);
    assert_eq!(obs.len(), 1);
    assert_eq!(obs[0].pos, pos(5, 8));
    assert_eq!(obs[0].damage, Damage(20));
    assert_eq!(obs[0].health, Health(1));
    assert!(!obs[0].blocking.0);
    let back = obstacles_to_hazards(&obs);
    assert_eq!(back, ice);
}

#[test]
fn hazard_dies_in_one_hit_and_hits_the_player() {
    let gs = GameState::default();
    let mut player = Player {
        pos: pos(5, 5),
        speed: Speed(1),
        damage: Damage(1),
        health: Health(100),
    };
    let ice = vec![FallingIce::activate(pos(5, 5), Damage(20))];
    let remaining = apply_damage_to_player(&gs, &mut player, hazards_to_obstacles(&ice));
    // One hit of any positive damage kills the hazard; it still deals its
    // contact damage in the same tick.
    assert_eq!(remaining.len(), 0);
    assert_eq!(player.health.0, 80);
}
