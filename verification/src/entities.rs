use vstd::prelude::*;
use crate::grid::GridPos;
use crate::state::Advantage;
use crate::state::GameState;

verus! {

/// Turns required per discrete move; the world updates on every `Speed`-th move.
#[derive(Clone, Copy, PartialEq, Eq, Structural, Debug)]
pub struct Speed(pub u8);

/// Damage dealt on overlap.
#[derive(Clone, Copy, PartialEq, Eq, Structural, Debug)]
pub struct Damage(pub i32);

/// Remaining hit points.
#[derive(Clone, Copy, PartialEq, Eq, Structural, Debug)]
pub struct Health(pub i32);

/// Whether an obstacle physically repels the player on contact.
#[derive(Clone, Copy, PartialEq, Eq, Structural, Debug)]
pub struct Blocking(pub bool);

/// The player entity: a grid position plus the stats the simulation reads.
#[derive(Clone, Copy, PartialEq, Eq, Structural, Debug)]
pub struct Player {
    pub pos: GridPos,
    pub speed: Speed,
    pub damage: Damage,
    pub health: Health,
}

impl Player {
    /// A freshly loaded player carries the stock stats; the chosen advantage
    /// is applied separately, once, right after the spawn.
    pub fn spawn(pos: GridPos) -> (p: Player)
        ensures
            p == (Player { pos, speed: Speed(1), damage: Damage(0), health: Health(100) }),
    {
        Player { pos, speed: Speed(1), damage: Damage(0), health: Health(100) }
    }
}

/// A fightable entity standing on the grid.
#[derive(Clone, Copy, PartialEq, Eq, Structural, Debug)]
pub struct Obstacle {
    pub pos: GridPos,
    pub damage: Damage,
    pub health: Health,
    pub blocking: Blocking,
}

impl Obstacle {
    /// Build an obstacle from the optional stat fields of a level entity,
    /// filling in the stock value for each absent field.
    pub fn from_fields(
        pos: GridPos,
        is_blocking: Option<bool>,
        damage: Option<i32>,
        health: Option<i32>,
    ) -> (o: Obstacle)
        ensures
            o.pos == pos,
            o.blocking.0 == (if is_blocking is Some { is_blocking->0 } else { false }),
            o.damage.0 == (if damage is Some { damage->0 } else { 0 }),
            o.health.0 == (if health is Some { health->0 } else { 100 }),
    {
        let blocking = match is_blocking {
            Some(b) => Blocking(b),
            None => Blocking(false),
        };
        let damage = match damage {
            Some(d) => Damage(d),
            None => Damage(0),
        };
        let health = match health {
            Some(h) => Health(h),
            None => Health(100),
        };
        Obstacle { pos, damage, health, blocking }
    }
}

/// The level's exit: overlapping it completes the level.
#[derive(Clone, Copy, PartialEq, Eq, Structural, Debug)]
pub struct Goal {
    pub pos: GridPos,
}

/// A moving ice hazard, shaken loose from a latent ice tile.  It dies in
/// one hit and steps down one row per gated world tick.
#[derive(Clone, Copy, PartialEq, Eq, Structural, Debug)]
pub struct FallingIce {
    pub pos: GridPos,
    pub damage: Damage,
    pub health: Health,
}

impl FallingIce {
    /// A hazard activated at `pos` carries the fixed hazard damage and a
    /// single hit point.
    pub fn activate(pos: GridPos, damage: Damage) -> (ice: FallingIce)
        ensures
            ice == (FallingIce { pos, damage, health: Health(1) }),
    {
        FallingIce { pos, damage, health: Health(1) }
    }
}

/// Apply the advantage chosen on the menu to a freshly spawned player.
/// Entering play without a selection is a session-controller bug, so the
/// precondition demands one.
pub fn apply_player_advantage_on_player_added(game_state: &GameState, player: &mut Player)
    requires
        game_state.player_advantage is Some,
    ensures
        *final(player) == (match game_state.player_advantage {
            Some(Advantage::Speed) => (Player { speed: Speed(2), ..*old(player) }),
            Some(Advantage::Strength) => (Player { damage: Damage(100), ..*old(player) }),
            Some(Advantage::Health) => (Player { health: Health(200), ..*old(player) }),
            None => *old(player),
        }),
{
    match game_state.player_advantage {
        Some(Advantage::Speed) => {
            player.speed = Speed(2);
        },
        Some(Advantage::Strength) => {
            player.damage = Damage(100);
        },
        Some(Advantage::Health) => {
            player.health = Health(200);
        },
        None => {},
    }
}

} // verus!
