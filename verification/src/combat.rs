use vstd::prelude::*;
use crate::grid::GridPos;
use crate::state::GameState;
use crate::entities::Health;
use crate::entities::Obstacle;
use crate::entities::Player;

verus! {

/// Two entities overlap iff they stand on the same grid cell.
pub fn entities_are_overlapping(a: GridPos, b: GridPos) -> (r: bool)
    ensures
        r == (a@ == b@),
{
    a.col == b.col && a.row == b.row
}

/// Resolve the overlapping obstacles in `obs`, front to back, against a
/// player at `ppos` with `phealth` hit points and `pdamage` attack damage.
/// Per overlapping obstacle: the player's damage (if positive) is subtracted
/// from its health and it despawns at zero or below; an obstacle that
/// survives the tick and blocks knocks the player back to `prev`; the
/// obstacle's damage (if positive) is subtracted from the player's health
/// while the player is alive.  Returns the surviving obstacles with their
/// new healths, the player's final position, and the player's final health.
pub open spec fn resolve_overlaps(
    obs: Seq<Obstacle>,
    ppos: (int, int),
    phealth: int,
    pdamage: int,
    prev: (int, int),
) -> (Seq<Obstacle>, (int, int), int)
    decreases obs.len(),
{
    if obs.len() == 0 {
        (Seq::<Obstacle>::empty(), ppos, phealth)
    } else {
        let o = obs[0];
        let rest = obs.subrange(1, obs.len() as int);
        if o.pos@ == ppos {
            let attacked = pdamage > 0 && o.health.0 > 0;
            let new_health = if attacked { o.health.0 - pdamage } else { o.health.0 as int };
            let died = attacked && new_health <= 0;
            let pos1 = if !died && o.blocking.0 { prev } else { ppos };
            let health1 = if o.damage.0 > 0 && phealth > 0 { phealth - o.damage.0 } else { phealth };
            let r = resolve_overlaps(rest, pos1, health1, pdamage, prev);
            if died {
                r
            } else {
                (seq![(Obstacle { health: Health(new_health as i32), ..o })] + r.0, r.1, r.2)
            }
        } else {
            let r = resolve_overlaps(rest, ppos, phealth, pdamage, prev);
            (seq![o] + r.0, r.1, r.2)
        }
    }
}

/// One gated combat tick: process every obstacle against the player, in
/// list order, exactly as `resolve_overlaps` describes; obstacles brought
/// to zero health or below despawn (they are absent from the returned
/// list), and a surviving blocking obstacle undoes the player's move by
/// restoring the previous position recorded in `game_state`.
pub fn apply_damage_to_player(
    game_state: &GameState,
    player: &mut Player,
    obstacles: Vec<Obstacle>,
) -> (remaining: Vec<Obstacle>)
    ensures
        ({
            let r = resolve_overlaps(
                obstacles@,
                old(player).pos@,
                old(player).health.0 as int,
                old(player).damage.0 as int,
                game_state.player_previous_pos@,
            );
            &&& remaining@ == r.0
            &&& final(player).pos@ == r.1
            &&& final(player).health.0 as int == r.2
            &&& final(player).speed == old(player).speed
            &&& final(player).damage == old(player).damage
        }),
{
    let ghost p0 = player.pos@;
    let ghost h0 = player.health.0 as int;
    let ghost pd = player.damage.0 as int;
    let ghost prev = game_state.player_previous_pos@;
    let ghost spd = player.speed;
    let ghost whole = resolve_overlaps(obstacles@, p0, h0, pd, prev);

    let mut remaining: Vec<Obstacle> = Vec::new();
    let n = obstacles.len();
    proof {
        assert(obstacles@.subrange(0, n as int) =~= obstacles@);
        assert(whole.0 =~= Seq::<Obstacle>::empty() + whole.0);
    }
    let mut i: usize = 0;
    while i < n
        invariant
            n == obstacles@.len(),
            i <= n,
            whole == resolve_overlaps(obstacles@, p0, h0, pd, prev),
            prev == game_state.player_previous_pos@,
            player.damage.0 as int == pd,
            player.speed == spd,
            ({
                let r = resolve_overlaps(
                    obstacles@.subrange(i as int, n as int),
                    player.pos@,
                    player.health.0 as int,
                    pd,
                    prev,
                );
                &&& whole.0 == remaining@ + r.0
                &&& whole.1 == r.1
                &&& whole.2 == r.2
            }),
        decreases n - i,
    {
        let ghost suffix = obstacles@.subrange(i as int, n as int);
        let ghost rem0 = remaining@;
        let ghost pos_in = player.pos@;
        let ghost h_in = player.health.0 as int;
        proof {
            assert(suffix[0] == obstacles@[i as int]);
            assert(suffix.subrange(1, suffix.len() as int)
                =~= obstacles@.subrange(i + 1 as int, n as int));
        }
        let o = obstacles[i];
        if entities_are_overlapping(o.pos, player.pos) {
            let mut obstacle_health = o.health.0;
            let mut obstacle_just_died = false;
            if player.damage.0 > 0 && obstacle_health > 0 {
                obstacle_health = obstacle_health - player.damage.0;
                if obstacle_health <= 0 {
                    obstacle_just_died = true;
                }
            }
            if !obstacle_just_died && o.blocking.0 {
                player.pos = game_state.player_previous_pos;
            }
            if o.damage.0 > 0 && player.health.0 > 0 {
                player.health = Health(player.health.0 - o.damage.0);
            }
            if !obstacle_just_died {
                remaining.push(Obstacle { health: Health(obstacle_health), ..o });
            }
        } else {
            remaining.push(o);
        }
        proof {
            let rest = obstacles@.subrange(i + 1 as int, n as int);
            let r = resolve_overlaps(rest, player.pos@, player.health.0 as int, pd, prev);
            let step = resolve_overlaps(suffix, pos_in, h_in, pd, prev);
            if o.pos@ == pos_in {
                let attacked = pd > 0 && o.health.0 > 0;
                let new_health = if attacked { o.health.0 - pd } else { o.health.0 as int };
                let died = attacked && new_health <= 0;
                if died {
                    assert(step == r);
                } else {
                    let item = (Obstacle { health: Health(new_health as i32), ..o });
                    assert(step == (seq![item] + r.0, r.1, r.2));
                    assert(remaining@ =~= rem0 + seq![item]);
                    assert(rem0 + (seq![item] + r.0) =~= (rem0 + seq![item]) + r.0);
                }
            } else {
                assert(step == (seq![o] + r.0, r.1, r.2));
                assert(remaining@ =~= rem0 + seq![o]);
                assert(rem0 + (seq![o] + r.0) =~= (rem0 + seq![o]) + r.0);
            }
        }
        i += 1;
    }
    proof {
        assert(obstacles@.subrange(n as int, n as int) =~= Seq::<Obstacle>::empty());
        assert(whole.0 =~= remaining@ + Seq::<Obstacle>::empty());
        assert(whole.0 =~= remaining@);
    }
    remaining
}

} // verus!
