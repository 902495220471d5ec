use vstd::prelude::*;
use crate::grid::GridPos;
use crate::state::Advantage;
use crate::state::AppState;
use crate::state::GameState;
use crate::entities::Damage;
use crate::entities::FallingIce;
use crate::entities::Health;
use crate::entities::Obstacle;
use crate::entities::Player;
use crate::combat::apply_damage_to_player;
use crate::combat::entities_are_overlapping;
use crate::combat::resolve_overlaps;
use crate::hazard::combat_forms;
use crate::hazard::hazard_forms;
use crate::hazard::hazards_to_obstacles;
use crate::hazard::move_falling_ice;
use crate::hazard::obstacles_to_hazards;
use crate::hazard::spawn_falling_ice_over_player;
use crate::hazard::step_hazards;
use crate::hazard::first_latent_ice;
use crate::tiles::TileMap;
use crate::tiles::TileType;

verus! {

/// Number of levels the session cycles through before the credits.
pub const NUM_LEVELS: usize = 4;

/// Commit the advantage picked on the menu and enter play.  The menu's
/// buttons form a closed enumeration, so the choice always exists by the
/// time it reaches the session.
pub fn select_advantage(
    game_state: &mut GameState,
    app_state: &mut AppState,
    choice: Advantage,
)
    ensures
        *final(game_state) == (GameState {
            player_advantage: Some(choice),
            ..*old(game_state)
        }),
        *final(app_state) == AppState::InGame,
{
    game_state.player_advantage = Some(choice);
    *app_state = AppState::InGame;
}

/// Gated systems (world tick, hazard motion, damage) run only on frames
/// where the turn gate fired.
pub fn run_if_world_should_update(game_state: &GameState) -> (r: bool)
    ensures
        r == game_state.world_should_update,
{
    game_state.world_should_update
}

/// What one gated world tick leaves behind.
#[derive(PartialEq, Eq, Debug)]
pub struct WorldTickOutcome {
    /// Obstacles still standing, with their reduced healths.
    pub obstacles: Vec<Obstacle>,
    /// Hazards after motion, combat and any fresh activation.
    pub hazards: Vec<FallingIce>,
    /// The cell of a latent ice tile that activated this tick, if one did.
    pub activated: Option<GridPos>,
}

/// One gated world tick, a no-op unless the turn gate fired this frame:
/// hazards step down one row, the overlap resolver runs over the obstacles
/// and then over the moved hazards (a hazard fights as a non-blocking
/// combatant), and finally the player's column is scanned for a latent ice
/// tile to activate; a fresh hazard carries `ice_damage` and one hit point.
pub fn run_gated_world_tick(
    tile_map: &mut TileMap,
    game_state: &GameState,
    player: &mut Player,
    obstacles: Vec<Obstacle>,
    hazards: Vec<FallingIce>,
    ice_damage: Damage,
) -> (outcome: WorldTickOutcome)
    requires
        old(tile_map).wf(),
        forall|k: int| 0 <= k < hazards@.len()
            ==> (#[trigger] hazards@[k]).pos.row > i32::MIN,
    ensures
        final(tile_map).wf(),
        final(player).speed == old(player).speed,
        final(player).damage == old(player).damage,
        !game_state.world_should_update ==> {
            &&& outcome.obstacles@ == obstacles@
            &&& outcome.hazards@ == hazards@
            &&& outcome.activated is None
            &&& *final(player) == *old(player)
            &&& *final(tile_map) == *old(tile_map)
        },
        game_state.world_should_update ==> ({
            let moved = step_hazards(hazards@);
            let first = resolve_overlaps(
                obstacles@,
                old(player).pos@,
                old(player).health.0 as int,
                old(player).damage.0 as int,
                game_state.player_previous_pos@,
            );
            let second = resolve_overlaps(
                combat_forms(moved),
                first.1,
                first.2,
                old(player).damage.0 as int,
                game_state.player_previous_pos@,
            );
            let hit = first_latent_ice(old(tile_map)@, second.1.0, second.1.1);
            &&& outcome.obstacles@ == first.0
            &&& final(player).pos@ == second.1
            &&& final(player).health.0 as int == second.2
            &&& (match outcome.activated {
                Some(cell) => {
                    &&& cell.col as int == second.1.0
                    &&& hit == Some(cell.row as int)
                    &&& final(tile_map)@ == old(tile_map)@.remove(cell@)
                    &&& outcome.hazards@ == hazard_forms(second.0).push(
                        FallingIce { pos: cell, damage: ice_damage, health: Health(1) },
                    )
                },
                None => {
                    &&& hit is None
                    &&& final(tile_map)@ == old(tile_map)@
                    &&& outcome.hazards@ == hazard_forms(second.0)
                },
            })
        }),
{
    if !run_if_world_should_update(game_state) {
        return WorldTickOutcome { obstacles, hazards, activated: None };
    }
    let mut hazards = hazards;
    move_falling_ice(&mut hazards);
    let remaining_obstacles = apply_damage_to_player(game_state, player, obstacles);
    let hazard_combatants = hazards_to_obstacles(&hazards);
    let surviving = apply_damage_to_player(game_state, player, hazard_combatants);
    let mut hazards_after = obstacles_to_hazards(&surviving);
    let activated = spawn_falling_ice_over_player(tile_map, player.pos);
    if let Some(cell) = activated {
        hazards_after.push(FallingIce::activate(cell, ice_damage));
    }
    WorldTickOutcome { obstacles: remaining_obstacles, hazards: hazards_after, activated }
}

/// Fully reset the session: clear the tile map, restore the default game
/// state, and return to the main menu.  Safe to invoke between any two
/// frames.
pub fn return_to_main_menu(
    tile_map: &mut TileMap,
    app_state: &mut AppState,
    game_state: &mut GameState,
)
    ensures
        final(tile_map)@ == Map::<(int, int), TileType>::empty(),
        final(tile_map).wf(),
        *final(game_state) == GameState::initial(),
        *final(app_state) == AppState::MainMenu,
{
    tile_map.clear();
    *game_state = GameState::default();
    *app_state = AppState::MainMenu;
}

/// The manual cancellation path: a cancel input during play forces the full
/// reset-and-return-to-menu, and otherwise nothing changes.
pub fn exit_on_esc(
    escape_pressed: bool,
    tile_map: &mut TileMap,
    app_state: &mut AppState,
    game_state: &mut GameState,
)
    ensures
        escape_pressed ==> {
            &&& final(tile_map)@ == Map::<(int, int), TileType>::empty()
            &&& final(tile_map).wf()
            &&& *final(game_state) == GameState::initial()
            &&& *final(app_state) == AppState::MainMenu
        },
        !escape_pressed ==> {
            &&& *final(tile_map) == *old(tile_map)
            &&& *final(game_state) == *old(game_state)
            &&& *final(app_state) == *old(app_state)
        },
{
    if escape_pressed {
        return_to_main_menu(tile_map, app_state, game_state);
    }
}

/// Death check, run when the player's health changed this frame: health at
/// zero or below resets the session and returns to the menu; otherwise
/// nothing changes.
pub fn check_for_player_death(
    tile_map: &mut TileMap,
    app_state: &mut AppState,
    game_state: &mut GameState,
    player_health: Health,
)
    ensures
        player_health.0 <= 0 ==> {
            &&& final(tile_map)@ == Map::<(int, int), TileType>::empty()
            &&& final(tile_map).wf()
            &&& *final(game_state) == GameState::initial()
            &&& *final(app_state) == AppState::MainMenu
        },
        player_health.0 > 0 ==> {
            &&& *final(tile_map) == *old(tile_map)
            &&& *final(game_state) == *old(game_state)
            &&& *final(app_state) == *old(app_state)
        },
{
    if player_health.0 <= 0 {
        return_to_main_menu(tile_map, app_state, game_state);
    }
}

/// Goal check, run when the player moved this frame.  Standing on the goal
/// cell always clears the tile map and then either advances the level index
/// by exactly one (returning the index the frontend should load next) or,
/// when the final level was just completed, resets the session and rolls
/// the credits.
pub fn check_player_reached_goal(
    tile_map: &mut TileMap,
    app_state: &mut AppState,
    game_state: &mut GameState,
    player_pos: GridPos,
    goal_pos: GridPos,
) -> (next_level: Option<usize>)
    requires
        old(tile_map).wf(),
        old(game_state).level_index < NUM_LEVELS,
    ensures
        final(tile_map).wf(),
        player_pos@ != goal_pos@ ==> {
            &&& *final(tile_map) == *old(tile_map)
            &&& *final(game_state) == *old(game_state)
            &&& *final(app_state) == *old(app_state)
            &&& next_level is None
        },
        player_pos@ == goal_pos@ ==> {
            &&& final(tile_map)@ == Map::<(int, int), TileType>::empty()
            &&& (old(game_state).level_index + 1 == NUM_LEVELS ==> {
                &&& *final(game_state) == GameState::initial()
                &&& *final(app_state) == AppState::Credits
                &&& next_level is None
            })
            &&& (old(game_state).level_index + 1 < NUM_LEVELS ==> {
                &&& *final(game_state) == (GameState {
                    level_index: (old(game_state).level_index + 1) as usize,
                    ..*old(game_state)
                })
                &&& *final(app_state) == *old(app_state)
                &&& next_level == Some((old(game_state).level_index + 1) as usize)
            })
        },
{
    if entities_are_overlapping(player_pos, goal_pos) {
        game_state.level_index = game_state.level_index + 1;
        tile_map.clear();
        if game_state.level_index == NUM_LEVELS {
            *game_state = GameState::default();
            *app_state = AppState::Credits;
            None
        } else {
            Some(game_state.level_index)
        }
    } else {
        None
    }
}

} // verus!
