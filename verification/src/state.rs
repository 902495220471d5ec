use vstd::prelude::*;
use vstd::arithmetic::div_mod::lemma_fundamental_div_mod;
use vstd::arithmetic::div_mod::lemma_mod_multiples_vanish;
use vstd::arithmetic::div_mod::lemma_small_mod;
use crate::grid::GridPos;

verus! {

/// Top-level screens of the session.
#[derive(Clone, Copy, PartialEq, Eq, Structural, Debug)]
pub enum AppState {
    MainMenu,
    InGame,
    Credits,
}

/// One-time stat boost chosen on the menu before play begins.
#[derive(Clone, Copy, PartialEq, Eq, Structural, Debug)]
pub enum Advantage {
    Speed,
    Strength,
    Health,
}

/// Session-scoped simulation state, reset wholesale on player death, on
/// returning to the menu, and on completing the final level.
#[derive(Clone, Copy, PartialEq, Eq, Debug)]
pub struct GameState {
    /// Where the player stood before the latest committed move; blocking
    /// obstacles knock the player back here.
    pub player_previous_pos: GridPos,
    /// Whether the latest committed move completed a gated world turn this
    /// frame.
    pub world_should_update: bool,
    /// How many discrete moves the player has committed this session.
    pub player_num_actions_taken: u32,
    /// Whether nothing supports the player from below.
    pub player_is_falling: bool,
    /// The boost picked on the menu; play never starts without one.
    pub player_advantage: Option<Advantage>,
    /// Which level is currently loaded.
    pub level_index: usize,
}

impl GameState {
    /// The state a fresh session starts from.
    pub open spec fn initial() -> GameState {
        GameState {
            player_previous_pos: GridPos { col: 0, row: 0 },
            world_should_update: false,
            player_num_actions_taken: 0,
            player_is_falling: false,
            player_advantage: None,
            level_index: 0,
        }
    }
}

impl Default for GameState {
    fn default() -> (s: GameState)
        ensures
            s == GameState::initial(),
    {
        GameState {
            player_previous_pos: GridPos { col: 0, row: 0 },
            world_should_update: false,
            player_num_actions_taken: 0,
            player_is_falling: false,
            player_advantage: None,
            level_index: 0,
        }
    }
}

/// The turn gate fires on the move that completes a full turn: when the
/// cumulative move count is a multiple of the player's speed stat.
pub open spec fn turn_gate_fires(moves: nat, speed: nat) -> bool {
    moves % speed == 0
}

/// A turn completes on exactly every `speed`-th successful move: if one completes
/// after `moves` moves, another completes `speed` moves later and on none of
/// the moves in between.
pub proof fn lemma_turn_gate_period(moves: nat, speed: nat)
    requires
        1 <= speed,
    ensures
        turn_gate_fires(0, speed),
        turn_gate_fires(moves, speed) ==> turn_gate_fires(moves + speed, speed),
        turn_gate_fires(moves, speed) ==> forall|d: int|
            0 < d < speed ==> !#[trigger] turn_gate_fires((moves + d) as nat, speed),
{
    lemma_small_mod(0, speed);
    if moves % speed == 0 {
        lemma_fundamental_div_mod(moves as int, speed as int);
        let q = moves as int / speed as int;
        assert(speed as int * (q + 1) == speed as int * q + speed) by (nonlinear_arith);
        assert(moves + speed == speed as int * (q + 1) + 0);
        lemma_mod_multiples_vanish(q + 1, 0, speed as int);
        assert forall|d: int| 0 < d < speed implies
            !#[trigger] turn_gate_fires((moves + d) as nat, speed) by {
            assert(moves + d == speed as int * q + d);
            lemma_mod_multiples_vanish(q, d, speed as int);
            lemma_small_mod(d as nat, speed);
        }
    }
}

} // verus!
