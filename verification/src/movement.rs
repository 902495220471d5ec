use vstd::prelude::*;
use crate::grid::GridPos;
use crate::grid::coord_in_bounds;
use crate::grid::is_position_in_bounds;
use crate::state::GameState;
use crate::state::turn_gate_fires;
use crate::entities::Health;
use crate::entities::Player;
use crate::tiles::TileMap;
use crate::tiles::TileType;
use crate::tiles::tile_at;

verus! {

/// The four directional edge-triggers sampled for one frame.  Opposite
/// triggers cancel; a horizontal and a vertical trigger together make a
/// diagonal attempt.
#[derive(Clone, Copy, PartialEq, Eq, Structural, Debug)]
pub struct MoveInput {
    pub left: bool,
    pub right: bool,
    pub up: bool,
    pub down: bool,
}

/// Advisory outcome of a committed move, handed to audio/visual collaborators.
#[derive(Clone, Copy, PartialEq, Eq, Structural, Debug)]
pub enum MoveEvent {
    /// A plain step (or a downward step that gravity subsumed).
    Lateral,
    ClimbUp,
    ClimbDown,
    /// The move ended with the player's health at zero or below.
    PlayerHit,
}

pub open spec fn dir_x(input: MoveInput) -> int {
    (if input.right { 1int } else { 0int }) - (if input.left { 1int } else { 0int })
}

pub open spec fn dir_y(input: MoveInput) -> int {
    (if input.up { 1int } else { 0int }) - (if input.down { 1int } else { 0int })
}

/// The cell one step in the input direction.
pub open spec fn move_target(p: (int, int), input: MoveInput) -> (int, int) {
    (p.0 + dir_x(input), p.1 + dir_y(input))
}

/// Nothing at all stands in the cell directly below `p`.
pub open spec fn unsupported(m: Map<(int, int), TileType>, p: (int, int)) -> bool {
    tile_at(m, (p.0, p.1 - 1)) is None
}

/// The player asks to move down while already unsupported; gravity subsumes
/// the vertical part of such a move.
pub open spec fn descending_while_falling(
    m: Map<(int, int), TileType>,
    p: (int, int),
    input: MoveInput,
) -> bool {
    dir_y(input) < 0 && unsupported(m, p)
}

/// Validity policy for one discrete step from `p`:
/// - a Wall destination blocks unless another Wall supports it from below;
/// - the row must stay the same, except when gravity already pulls the
///   player down, or the destination is climbable (Ladder or latent ice);
/// - the destination column must stay inside the world and the move must
///   actually go somewhere.
pub open spec fn move_allowed(
    m: Map<(int, int), TileType>,
    p: (int, int),
    input: MoveInput,
) -> bool {
    let t = move_target(p, input);
    let row_ok = t.1 == p.1
        || descending_while_falling(m, p, input)
        || tile_at(m, t) == Some(TileType::Ladder)
        || tile_at(m, t) == Some(TileType::FallingIce);
    let blocked = tile_at(m, t) == Some(TileType::Wall)
        && tile_at(m, (t.0, t.1 - 1)) != Some(TileType::Wall);
    coord_in_bounds(t.0) && t != p && !blocked && row_ok
}

/// Gravity pulls at `p` when nothing stands below, or when only a ladder
/// stands below while `p` itself is open (the player tops out of a ladder
/// and keeps falling onto it).
pub open spec fn gravity_falling(m: Map<(int, int), TileType>, p: (int, int)) -> bool {
    tile_at(m, (p.0, p.1 - 1)) is None
    || (tile_at(m, (p.0, p.1 - 1)) == Some(TileType::Ladder) && tile_at(m, p) is None)
}

/// The row after one gravity evaluation at `p`: one step down when gravity
/// pulls and the player has not already moved vertically this frame
/// (`p.1 == prev_row`), else unchanged.
pub open spec fn gravity_row(m: Map<(int, int), TileType>, p: (int, int), prev_row: int) -> int {
    if gravity_falling(m, p) && p.1 == prev_row {
        p.1 - 1
    } else {
        p.1
    }
}

/// A gravity evaluation is fatal when it leaves a pulled player outside the
/// world's vertical bounds.
pub open spec fn gravity_fatal(m: Map<(int, int), TileType>, p: (int, int), prev_row: int) -> bool {
    gravity_falling(m, p) && !coord_in_bounds(gravity_row(m, p, prev_row))
}

/// Where a committed move from `p` ends up after gravity.
pub open spec fn pos_after_move(
    m: Map<(int, int), TileType>,
    p: (int, int),
    input: MoveInput,
) -> (int, int) {
    let t = move_target(p, input);
    (t.0, gravity_row(m, t, p.1))
}

/// The advisory event a committed move from `p` reports, given the player's
/// health after the move.
pub open spec fn event_after_move(
    m: Map<(int, int), TileType>,
    p: (int, int),
    input: MoveInput,
    health_after: int,
) -> Option<MoveEvent> {
    if !gravity_falling(m, move_target(p, input)) {
        if descending_while_falling(m, p, input) {
            Some(MoveEvent::Lateral)
        } else if dir_y(input) > 0 {
            Some(MoveEvent::ClimbUp)
        } else if dir_y(input) < 0 {
            Some(MoveEvent::ClimbDown)
        } else {
            Some(MoveEvent::Lateral)
        }
    } else if health_after <= 0 {
        Some(MoveEvent::PlayerHit)
    } else {
        None
    }
}

/// A Wall destination with no Wall supporting it from below rejects the
/// move outright, whatever else the input asked for: the player stays put.
pub proof fn lemma_wall_blocks(m: Map<(int, int), TileType>, p: (int, int), input: MoveInput)
    requires
        tile_at(m, move_target(p, input)) == Some(TileType::Wall),
        tile_at(m, (move_target(p, input).0, move_target(p, input).1 - 1))
            != Some(TileType::Wall),
    ensures
        !move_allowed(m, p, input),
{
}

/// Reset the turn gate at the start of a frame.  A frame with no player
/// entity does nothing else.
pub fn reset_turn_gate(game_state: &mut GameState)
    ensures
        *final(game_state) == (GameState { world_should_update: false, ..*old(game_state) }),
{
    game_state.world_should_update = false;
}

/// One gravity evaluation: recompute whether the player is falling from the
/// tiles at and below their cell; pull them one row down when falling and
/// they have not already changed row this frame (`previous_row`); a pull
/// that ends out of bounds is a fatal fall and zeroes their health.
pub fn apply_gravity(
    tile_map: &TileMap,
    game_state: &mut GameState,
    previous_row: i32,
    player: &mut Player,
)
    requires
        tile_map.wf(),
        i32::MIN < old(player).pos.row,
    ensures
        final(player).pos.col == old(player).pos.col,
        final(player).pos.row as int
            == gravity_row(tile_map@, old(player).pos@, previous_row as int),
        final(player).health.0 as int == (if gravity_fatal(
            tile_map@,
            old(player).pos@,
            previous_row as int,
        ) {
            0int
        } else {
            old(player).health.0 as int
        }),
        final(player).speed == old(player).speed,
        final(player).damage == old(player).damage,
        *final(game_state) == (GameState {
            player_is_falling: gravity_falling(tile_map@, old(player).pos@),
            ..*old(game_state)
        }),
{
    let below = tile_map.get(GridPos { col: player.pos.col, row: player.pos.row - 1 });
    let on = tile_map.get(player.pos);
    let falling = match below {
        None => true,
        Some(TileType::Ladder) => on.is_none(),
        Some(_) => false,
    };
    game_state.player_is_falling = falling;
    if falling {
        if player.pos.row == previous_row {
            player.pos.row = player.pos.row - 1;
        }
        if !is_position_in_bounds(player.pos.row) {
            player.health = Health(0);
        }
    }
}

/// The row after `k` gravity evaluations starting at `(c, r)`, each on a
/// frame with no committed move.
pub open spec fn iterated_gravity_row(
    m: Map<(int, int), TileType>,
    c: int,
    r: int,
    k: nat,
) -> int
    decreases k,
{
    if k == 0 {
        r
    } else {
        gravity_row(
            m,
            (c, iterated_gravity_row(m, c, r, (k - 1) as nat)),
            iterated_gravity_row(m, c, r, (k - 1) as nat),
        )
    }
}

/// Gravity is monotonic while unsupported: with every cell of column `c`
/// from row `r - k` up to (but excluding) row `r` open, `k` successive
/// gravity evaluations each lower the player by exactly one row.
pub proof fn lemma_gravity_monotonic(m: Map<(int, int), TileType>, c: int, r: int, k: nat)
    requires
        forall|row: int| r - k <= row < r ==> !m.dom().contains((c, row)),
    ensures
        iterated_gravity_row(m, c, r, k) == r - k,
    decreases k,
{
    if k > 0 {
        lemma_gravity_monotonic(m, c, r, (k - 1) as nat);
        assert(!m.dom().contains((c, r - k)));
    }
}

/// What the player's sprite should show this frame; the renderer maps
/// these flags (together with the chosen advantage) to a texture and an
/// opacity.
#[derive(Clone, Copy, PartialEq, Eq, Structural, Debug)]
pub struct PlayerVisuals {
    /// The frame right after a committed move of a slower player: shown
    /// semi-transparent while mid-turn.
    pub mid_turn: bool,
    /// Standing in a ladder cell that is not the ladder's top.
    pub climbing: bool,
    /// Nothing supports the player, or only a topped-out ladder does.
    pub falling: bool,
}

/// Decide the player's visual state from the tile map and the turn
/// counter.  Pure reading: neither the map nor any state changes.
pub fn apply_player_visual_effects(
    tile_map: &TileMap,
    game_state: &GameState,
    player: &Player,
) -> (v: PlayerVisuals)
    requires
        tile_map.wf(),
        player.speed.0 >= 1,
        i32::MIN < player.pos.row,
        player.pos.row < i32::MAX,
    ensures
        v.mid_turn == (game_state.player_num_actions_taken as nat % player.speed.0 as nat == 1),
        v.climbing == (tile_at(tile_map@, player.pos@) == Some(TileType::Ladder)
            && tile_at(tile_map@, (player.pos@.0, player.pos@.1 + 1)) == Some(TileType::Ladder)),
        v.falling == (tile_at(tile_map@, (player.pos@.0, player.pos@.1 - 1)) is None
            || (tile_at(tile_map@, player.pos@) is None
                && tile_at(tile_map@, (player.pos@.0, player.pos@.1 - 1))
                    == Some(TileType::Ladder))),
{
    let mid_turn = game_state.player_num_actions_taken % (player.speed.0 as u32) == 1;
    let on = tile_map.get(player.pos);
    let over = tile_map.get(GridPos { col: player.pos.col, row: player.pos.row + 1 });
    let under = tile_map.get(GridPos { col: player.pos.col, row: player.pos.row - 1 });
    let climbing = matches!(on, Some(TileType::Ladder)) && matches!(over, Some(TileType::Ladder));
    let falling = under.is_none()
        || (on.is_none() && matches!(under, Some(TileType::Ladder)));
    PlayerVisuals { mid_turn, climbing, falling }
}

/// One frame of the movement system, called when an input edge fired and a
/// player exists.  Resets the turn gate, recomputes the falling flag, then
/// validates the requested step; a committed step records the previous
/// position, counts the action, marks a completed turn on every `speed`-th action,
/// and finishes with one gravity evaluation.  An invalid step changes
/// nothing but the recomputed falling flag.
pub fn move_player_from_input(
    tile_map: &TileMap,
    game_state: &mut GameState,
    player: &mut Player,
    input: MoveInput,
) -> (ev: Option<MoveEvent>)
    requires
        tile_map.wf(),
        old(player).speed.0 >= 1,
        old(game_state).player_num_actions_taken < u32::MAX,
        old(player).pos.col - 1 >= i32::MIN,
        old(player).pos.col + 1 <= i32::MAX,
        old(player).pos.row - 2 >= i32::MIN,
        old(player).pos.row + 1 <= i32::MAX,
    ensures
        final(game_state).world_should_update == (move_allowed(
            tile_map@,
            old(player).pos@,
            input,
        ) && turn_gate_fires(
            (old(game_state).player_num_actions_taken + 1) as nat,
            old(player).speed.0 as nat,
        )),
        !move_allowed(tile_map@, old(player).pos@, input) ==> {
            &&& *final(player) == *old(player)
            &&& ev is None
            &&& *final(game_state) == (GameState {
                world_should_update: false,
                player_is_falling: unsupported(tile_map@, old(player).pos@),
                ..*old(game_state)
            })
        },
        move_allowed(tile_map@, old(player).pos@, input) ==> {
            &&& final(player).pos@ == pos_after_move(tile_map@, old(player).pos@, input)
            &&& final(player).health.0 as int == (if gravity_fatal(
                tile_map@,
                move_target(old(player).pos@, input),
                old(player).pos@.1,
            ) {
                0int
            } else {
                old(player).health.0 as int
            })
            &&& final(player).speed == old(player).speed
            &&& final(player).damage == old(player).damage
            &&& final(game_state).player_previous_pos == old(player).pos
            &&& final(game_state).player_num_actions_taken
                == old(game_state).player_num_actions_taken + 1
            &&& final(game_state).player_is_falling == gravity_falling(
                tile_map@,
                move_target(old(player).pos@, input),
            )
            &&& final(game_state).player_advantage == old(game_state).player_advantage
            &&& final(game_state).level_index == old(game_state).level_index
            &&& ev == event_after_move(
                tile_map@,
                old(player).pos@,
                input,
                final(player).health.0 as int,
            )
        },
{
    game_state.world_should_update = false;

    let mut dx: i32 = 0;
    let mut dy: i32 = 0;
    if input.left {
        dx = dx - 1;
    }
    if input.right {
        dx = dx + 1;
    }
    if input.up {
        dy = dy + 1;
    }
    if input.down {
        dy = dy - 1;
    }

    let current = player.pos;
    let below_current = tile_map.get(GridPos { col: current.col, row: current.row - 1 });
    let falling_pre = below_current.is_none();
    game_state.player_is_falling = falling_pre;

    let new_col = current.col + dx;
    let new_row = current.row + dy;
    let target = GridPos { col: new_col, row: new_row };

    let going_down_while_falling = dy < 0 && falling_pre;

    let mut valid_cell = true;
    let mut valid_row = new_row == current.row || going_down_while_falling;

    match tile_map.get(target) {
        Some(TileType::Wall) => {
            let below_target = tile_map.get(GridPos { col: new_col, row: new_row - 1 });
            valid_cell = matches!(below_target, Some(TileType::Wall));
        },
        Some(TileType::Ladder) => {
            valid_row = true;
        },
        Some(TileType::FallingIce) => {
            valid_row = true;
        },
        None => {},
    }

    if is_position_in_bounds(new_col)
        && (new_col != current.col || new_row != current.row)
        && valid_cell
        && valid_row
    {
        game_state.player_previous_pos = current;
        player.pos = target;
        game_state.player_num_actions_taken = game_state.player_num_actions_taken + 1;
        if game_state.player_num_actions_taken % (player.speed.0 as u32) == 0 {
            game_state.world_should_update = true;
        }
        apply_gravity(tile_map, game_state, current.row, player);
        if !game_state.player_is_falling {
            if going_down_while_falling {
                Some(MoveEvent::Lateral)
            } else if dy > 0 {
                Some(MoveEvent::ClimbUp)
            } else if dy < 0 {
                Some(MoveEvent::ClimbDown)
            } else {
                Some(MoveEvent::Lateral)
            }
        } else if player.health.0 <= 0 {
            Some(MoveEvent::PlayerHit)
        } else {
            None
        }
    } else {
        None
    }
}

} // verus!
