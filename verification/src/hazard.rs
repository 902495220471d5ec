use vstd::prelude::*;
use crate::grid::GridPos;
use crate::grid::WORLD_SIZE;
use crate::entities::Blocking;
use crate::entities::FallingIce;
use crate::entities::Obstacle;
use crate::tiles::TileMap;
use crate::tiles::TileType;
use crate::tiles::tile_at;

verus! {

/// Scan column `c` from row `j` upward to the top of the world and report
/// the row of the first latent ice tile reached, if any.  A Wall stops the
/// scan; ladders and open cells are transparent to it.
pub open spec fn first_latent_ice(m: Map<(int, int), TileType>, c: int, j: int) -> Option<int>
    decreases WORLD_SIZE - j,
{
    if j >= WORLD_SIZE {
        None
    } else if tile_at(m, (c, j)) == Some(TileType::FallingIce) {
        Some(j)
    } else if tile_at(m, (c, j)) == Some(TileType::Wall) {
        None
    } else {
        first_latent_ice(m, c, j + 1)
    }
}

/// Look for a latent ice tile in the player's column, from the player's row
/// upward until a Wall or the top of the world.  The first one found is
/// activated: it leaves the static tile map and its cell is returned so the
/// caller can spawn the moving hazard there.  At most one tile activates
/// per scan.
pub fn spawn_falling_ice_over_player(tile_map: &mut TileMap, player_pos: GridPos) -> (activated:
    Option<GridPos>)
    requires
        old(tile_map).wf(),
    ensures
        final(tile_map).wf(),
        ({
            let hit = first_latent_ice(old(tile_map)@, player_pos@.0, player_pos@.1);
            match activated {
                Some(p) => {
                    &&& p.col == player_pos.col
                    &&& hit == Some(p.row as int)
                    &&& final(tile_map)@ == old(tile_map)@.remove(p@)
                },
                None => {
                    &&& hit is None
                    &&& final(tile_map)@ == old(tile_map)@
                },
            }
        }),
{
    let ghost m0 = tile_map@;
    let ghost c0 = player_pos@.0;
    let ghost r0 = player_pos@.1;
    let mut j = player_pos.row;
    while j < WORLD_SIZE
        invariant
            tile_map.wf(),
            tile_map@ == m0,
            m0 == old(tile_map)@,
            c0 == player_pos@.0,
            r0 == player_pos@.1,
            first_latent_ice(m0, c0, r0) == first_latent_ice(m0, c0, j as int),
        decreases WORLD_SIZE - j,
    {
        let cell = GridPos { col: player_pos.col, row: j };
        match tile_map.get(cell) {
            Some(TileType::FallingIce) => {
                tile_map.remove(cell);
                return Some(cell);
            },
            Some(TileType::Wall) => {
                return None;
            },
            _ => {},
        }
        j = j + 1;
    }
    None
}

/// One gated tick of hazard motion: every active hazard steps down one row,
/// and one whose column or row has left the grid despawns.
pub open spec fn step_hazards(s: Seq<FallingIce>) -> Seq<FallingIce>
    decreases s.len(),
{
    if s.len() == 0 {
        Seq::<FallingIce>::empty()
    } else {
        let h = s[0];
        let moved = FallingIce {
            pos: GridPos { col: h.pos.col, row: (h.pos.row - 1) as i32 },
            ..h
        };
        let rest = step_hazards(s.subrange(1, s.len() as int));
        if moved.pos.col < 0 || moved.pos.row < 0 {
            rest
        } else {
            seq![moved] + rest
        }
    }
}

/// Move every active hazard one row down; hazards that step off the grid
/// despawn.  Rows only ever decrease, so a despawned hazard never re-enters.
pub fn move_falling_ice(ice: &mut Vec<FallingIce>)
    requires
        forall|k: int| 0 <= k < old(ice)@.len()
            ==> (#[trigger] old(ice)@[k]).pos.row > i32::MIN,
    ensures
        final(ice)@ == step_hazards(old(ice)@),
{
    let ghost whole = old(ice)@;
    let mut moved: Vec<FallingIce> = Vec::new();
    let n = ice.len();
    proof {
        assert(whole.subrange(0, n as int) =~= whole);
        assert(step_hazards(whole) =~= Seq::<FallingIce>::empty() + step_hazards(whole));
    }
    let mut i: usize = 0;
    while i < n
        invariant
            n == whole.len(),
            i <= n,
            ice@ == whole,
            forall|k: int| 0 <= k < whole.len() ==> (#[trigger] whole[k]).pos.row > i32::MIN,
            step_hazards(whole) == moved@ + step_hazards(whole.subrange(i as int, n as int)),
        decreases n - i,
    {
        let ghost suffix = whole.subrange(i as int, n as int);
        let ghost rem0 = moved@;
        proof {
            assert(suffix[0] == whole[i as int]);
            assert(suffix.subrange(1, suffix.len() as int)
                =~= whole.subrange(i + 1 as int, n as int));
        }
        let h = ice[i];
        let stepped = FallingIce {
            pos: GridPos { col: h.pos.col, row: h.pos.row - 1 },
            ..h
        };
        if !(stepped.pos.col < 0 || stepped.pos.row < 0) {
            moved.push(stepped);
            proof {
                let rest = step_hazards(whole.subrange(i + 1 as int, n as int));
                assert(moved@ =~= rem0 + seq![stepped]);
                assert(rem0 + (seq![stepped] + rest) =~= (rem0 + seq![stepped]) + rest);
            }
        }
        i += 1;
    }
    proof {
        assert(whole.subrange(n as int, n as int) =~= Seq::<FallingIce>::empty());
        assert(step_hazards(whole) =~= moved@);
    }
    *ice = moved;
}

/// The combat form of a hazard list: same cells, damage and health, never
/// blocking.
pub open spec fn combat_forms(s: Seq<FallingIce>) -> Seq<Obstacle> {
    s.map_values(|h: FallingIce| Obstacle {
        pos: h.pos,
        damage: h.damage,
        health: h.health,
        blocking: Blocking(false),
    })
}

/// The hazard form of a combatant list: same cells, damage and health.
pub open spec fn hazard_forms(s: Seq<Obstacle>) -> Seq<FallingIce> {
    s.map_values(|o: Obstacle| FallingIce { pos: o.pos, damage: o.damage, health: o.health })
}

/// View the active hazards as combat entities: same cell, damage and
/// health, never blocking.
pub fn hazards_to_obstacles(ice: &Vec<FallingIce>) -> (obs: Vec<Obstacle>)
    ensures
        obs@ == combat_forms(ice@),
{
    let mut obs: Vec<Obstacle> = Vec::new();
    let n = ice.len();
    let mut i: usize = 0;
    while i < n
        invariant
            n == ice@.len(),
            i <= n,
            obs@.len() == i,
            forall|k: int| 0 <= k < i ==> #[trigger] obs@[k] == (Obstacle {
                pos: ice@[k].pos,
                damage: ice@[k].damage,
                health: ice@[k].health,
                blocking: Blocking(false),
            }),
        decreases n - i,
    {
        let h = ice[i];
        obs.push(Obstacle { pos: h.pos, damage: h.damage, health: h.health, blocking: Blocking(false) });
        i += 1;
    }
    proof {
        assert(obs@ =~= combat_forms(ice@));
    }
    obs
}

/// Read combat survivors back as hazards: same cell, damage and health.
pub fn obstacles_to_hazards(obs: &Vec<Obstacle>) -> (ice: Vec<FallingIce>)
    ensures
        ice@ == hazard_forms(obs@),
{
    let mut ice: Vec<FallingIce> = Vec::new();
    let n = obs.len();
    let mut i: usize = 0;
    while i < n
        invariant
            n == obs@.len(),
            i <= n,
            ice@.len() == i,
            forall|k: int| 0 <= k < i ==> #[trigger] ice@[k] == (FallingIce {
                pos: obs@[k].pos,
                damage: obs@[k].damage,
                health: obs@[k].health,
            }),
        decreases n - i,
    {
        let o = obs[i];
        ice.push(FallingIce { pos: o.pos, damage: o.damage, health: o.health });
        i += 1;
    }
    proof {
        assert(ice@ =~= hazard_forms(obs@));
    }
    ice
}

} // verus!
