use vstd::prelude::*;
use crate::grid::GridPos;

verus! {

/// Kind of static tile occupying one grid cell.  `FallingIce` marks a latent
/// ice tile that has not yet been shaken loose into a moving hazard.
#[derive(Clone, Copy, PartialEq, Eq, Structural, Debug)]
pub enum TileType {
    Wall,
    Ladder,
    FallingIce,
}

/// The tile kind at cell `k` of a map view, if any.
pub open spec fn tile_at(m: Map<(int, int), TileType>, k: (int, int)) -> Option<TileType> {
    if m.dom().contains(k) {
        Some(m[k])
    } else {
        None
    }
}

/// No two entries of the backing store name the same cell.
spec fn keys_unique(s: Seq<(GridPos, TileType)>) -> bool {
    forall|i: int, j: int|
        0 <= i < j < s.len() ==> (#[trigger] s[i]).0@ != (#[trigger] s[j]).0@
}

spec fn has_cell(s: Seq<(GridPos, TileType)>, k: (int, int)) -> bool {
    exists|i: int| 0 <= i < s.len() && (#[trigger] s[i]).0@ == k
}

spec fn cell_index(s: Seq<(GridPos, TileType)>, k: (int, int)) -> int {
    choose|i: int| 0 <= i < s.len() && (#[trigger] s[i]).0@ == k
}

/// The mapping from cells to kinds that an entry list denotes.
spec fn seq_view(s: Seq<(GridPos, TileType)>) -> Map<(int, int), TileType> {
    Map::new(
        |k: (int, int)| has_cell(s, k),
        |k: (int, int)| s[cell_index(s, k)].1,
    )
}

/// With unique keys, the entry holding a cell is the one `cell_index` picks.
proof fn lemma_cell_index_of(s: Seq<(GridPos, TileType)>, k: (int, int), i: int)
    requires
        keys_unique(s),
        0 <= i < s.len(),
        s[i].0@ == k,
    ensures
        has_cell(s, k),
        cell_index(s, k) == i,
{
    assert(has_cell(s, k));
    let j = cell_index(s, k);
    if i < j {
        assert(s[i].0@ != s[j].0@);
    }
    if j < i {
        assert(s[j].0@ != s[i].0@);
    }
}

/// Overwriting the entry that already holds a cell updates the denoted map
/// at that one cell.
proof fn lemma_seq_view_update(s: Seq<(GridPos, TileType)>, i: int, pos: GridPos, kind: TileType)
    requires
        keys_unique(s),
        0 <= i < s.len(),
        s[i].0@ == pos@,
    ensures
        keys_unique(s.update(i, (pos, kind))),
        seq_view(s.update(i, (pos, kind))) == seq_view(s).insert(pos@, kind),
{
    let s1 = s.update(i, (pos, kind));
    assert forall|a: int, b: int| 0 <= a < b < s1.len() implies
        (#[trigger] s1[a]).0@ != (#[trigger] s1[b]).0@ by {
        assert(s1[a].0@ == s[a].0@);
        assert(s1[b].0@ == s[b].0@);
    }
    assert forall|k: (int, int)| has_cell(s1, k) implies
        seq_view(s).insert(pos@, kind).dom().contains(k) by {
        let w = choose|w: int| 0 <= w < s1.len() && (#[trigger] s1[w]).0@ == k;
        assert(s[w].0@ == k);
        assert(has_cell(s, k));
    }
    assert forall|k: (int, int)| seq_view(s).insert(pos@, kind).dom().contains(k) implies
        has_cell(s1, k) by {
        if k == pos@ {
            assert(s1[i].0@ == k);
        } else {
            let w = choose|w: int| 0 <= w < s.len() && (#[trigger] s[w]).0@ == k;
            assert(s1[w].0@ == k);
        }
    }
    assert forall|k: (int, int)| has_cell(s1, k) implies
        seq_view(s1)[k] == seq_view(s).insert(pos@, kind)[k] by {
        let c1 = cell_index(s1, k);
        assert(0 <= c1 < s1.len() && s1[c1].0@ == k);
        if k == pos@ {
            lemma_cell_index_of(s1, k, i);
            assert(seq_view(s1)[k] == kind);
        } else {
            assert(c1 != i);
            assert(s1[c1] == s[c1]);
            lemma_cell_index_of(s, k, c1);
            assert(seq_view(s)[k] == s[c1].1);
        }
    }
    assert(seq_view(s1) =~= seq_view(s).insert(pos@, kind));
}

/// Appending an entry for a cell the store does not yet hold updates the
/// denoted map at that one cell.
proof fn lemma_seq_view_push(s: Seq<(GridPos, TileType)>, pos: GridPos, kind: TileType)
    requires
        keys_unique(s),
        !has_cell(s, pos@),
    ensures
        keys_unique(s.push((pos, kind))),
        seq_view(s.push((pos, kind))) == seq_view(s).insert(pos@, kind),
{
    let s1 = s.push((pos, kind));
    let n = s.len() as int;
    assert forall|a: int, b: int| 0 <= a < b < s1.len() implies
        (#[trigger] s1[a]).0@ != (#[trigger] s1[b]).0@ by {
        if b < n {
            assert(s1[a] == s[a]);
            assert(s1[b] == s[b]);
        } else {
            assert(s1[b].0@ == pos@);
            assert(s1[a] == s[a]);
            if s[a].0@ == pos@ {
                assert(has_cell(s, pos@));
            }
        }
    }
    assert forall|k: (int, int)| has_cell(s1, k) implies
        seq_view(s).insert(pos@, kind).dom().contains(k) by {
        let w = choose|w: int| 0 <= w < s1.len() && (#[trigger] s1[w]).0@ == k;
        if w < n {
            assert(s[w].0@ == k);
            assert(has_cell(s, k));
        }
    }
    assert forall|k: (int, int)| seq_view(s).insert(pos@, kind).dom().contains(k) implies
        has_cell(s1, k) by {
        if k == pos@ {
            assert(s1[n].0@ == k);
        } else {
            let w = choose|w: int| 0 <= w < s.len() && (#[trigger] s[w]).0@ == k;
            assert(s1[w].0@ == k);
        }
    }
    assert forall|k: (int, int)| has_cell(s1, k) implies
        seq_view(s1)[k] == seq_view(s).insert(pos@, kind)[k] by {
        let c1 = cell_index(s1, k);
        assert(0 <= c1 < s1.len() && s1[c1].0@ == k);
        if k == pos@ {
            lemma_cell_index_of(s1, k, n);
            assert(seq_view(s1)[k] == kind);
        } else {
            assert(c1 != n);
            assert(s1[c1] == s[c1]);
            lemma_cell_index_of(s, k, c1);
            assert(seq_view(s)[k] == s[c1].1);
        }
    }
    assert(seq_view(s1) =~= seq_view(s).insert(pos@, kind));
}

/// Deleting the entry that holds a cell removes that one cell from the
/// denoted map.
proof fn lemma_seq_view_remove(s: Seq<(GridPos, TileType)>, i: int)
    requires
        keys_unique(s),
        0 <= i < s.len(),
    ensures
        keys_unique(s.remove(i)),
        seq_view(s.remove(i)) == seq_view(s).remove(s[i].0@),
{
    let s1 = s.remove(i);
    let k0 = s[i].0@;
    s.remove_ensures(i);
    assert forall|a: int, b: int| 0 <= a < b < s1.len() implies
        (#[trigger] s1[a]).0@ != (#[trigger] s1[b]).0@ by {
        let a0: int = if a < i { a } else { a + 1 };
        let b0: int = if b < i { b } else { b + 1 };
        assert(s1[a] == s[a0]);
        assert(s1[b] == s[b0]);
        assert(s[a0].0@ != s[b0].0@);
    }
    assert forall|k: (int, int)| has_cell(s1, k) implies
        seq_view(s).remove(k0).dom().contains(k) by {
        let w = choose|w: int| 0 <= w < s1.len() && (#[trigger] s1[w]).0@ == k;
        let w0: int = if w < i { w } else { w + 1 };
        assert(s1[w] == s[w0]);
        assert(has_cell(s, k));
        if k == k0 {
            assert(s[w0].0@ == s[i].0@);
            assert(w0 != i ==> s[w0].0@ != s[i].0@);
        }
    }
    assert forall|k: (int, int)| seq_view(s).remove(k0).dom().contains(k) implies
        has_cell(s1, k) by {
        let w = choose|w: int| 0 <= w < s.len() && (#[trigger] s[w]).0@ == k;
        assert(w != i);
        let w1: int = if w < i { w } else { w - 1 };
        assert(s1[w1] == s[w]);
    }
    assert forall|k: (int, int)| has_cell(s1, k) implies
        seq_view(s1)[k] == seq_view(s).remove(k0)[k] by {
        let c1 = cell_index(s1, k);
        assert(0 <= c1 < s1.len() && s1[c1].0@ == k);
        let c0: int = if c1 < i { c1 } else { c1 + 1 };
        assert(s1[c1] == s[c0]);
        lemma_cell_index_of(s, k, c0);
        assert(seq_view(s)[k] == s[c0].1);
    }
    assert(seq_view(s1) =~= seq_view(s).remove(k0));
}

/// Sparse map from grid cells to tile kinds, built once per level load and
/// cleared wholesale on level teardown.  The backing store never repeats a
/// cell, so every coordinate holds at most one tile kind.
pub struct TileMap {
    entries: Vec<(GridPos, TileType)>,
}

impl View for TileMap {
    type V = Map<(int, int), TileType>;

    closed spec fn view(&self) -> Map<(int, int), TileType> {
        seq_view(self.entries@)
    }
}

impl TileMap {
    /// Uniqueness invariant: at most one entry, hence at most one tile kind,
    /// per grid coordinate.
    pub closed spec fn wf(&self) -> bool {
        keys_unique(self.entries@)
    }

    /// Fresh, empty tile map.
    pub fn new() -> (m: TileMap)
        ensures
            m@ == Map::<(int, int), TileType>::empty(),
            m.wf(),
    {
        let m = TileMap { entries: Vec::new() };
        proof {
            assert(m@ =~= Map::<(int, int), TileType>::empty());
        }
        m
    }

    /// Number of cells that hold a tile.  Equal to the cardinality of the
    /// view's domain: duplicate registrations of a cell never pile up.
    pub fn len(&self) -> (n: usize)
        requires
            self.wf(),
        ensures
            n == self@.dom().len(),
    {
        proof {
            let s = self.entries@;
            let keys = s.map_values(|e: (GridPos, TileType)| e.0@);
            assert forall|a: int, b: int|
                0 <= a < keys.len() && 0 <= b < keys.len() && a != b implies
                keys[a] != keys[b] by {
                if a < b {
                    assert(s[a].0@ != s[b].0@);
                } else {
                    assert(s[b].0@ != s[a].0@);
                }
            }
            assert(keys.no_duplicates());
            assert forall|k: (int, int)| self@.dom().contains(k) implies
                #[trigger] keys.to_set().contains(k) by {
                let w = choose|w: int| 0 <= w < s.len() && (#[trigger] s[w]).0@ == k;
                assert(keys[w] == k);
            }
            assert forall|k: (int, int)| #[trigger] keys.to_set().contains(k) implies
                self@.dom().contains(k) by {
                let w = choose|w: int| 0 <= w < keys.len() && keys[w] == k;
                assert(s[w].0@ == k);
            }
            assert(self@.dom() =~= keys.to_set());
            keys.unique_seq_to_set();
        }
        self.entries.len()
    }

    /// Tile kind at `pos`, if the map holds one there.
    pub fn get(&self, pos: GridPos) -> (t: Option<TileType>)
        requires
            self.wf(),
        ensures
            t == tile_at(self@, pos@),
    {
        let ghost s = self.entries@;
        let n = self.entries.len();
        let mut i: usize = 0;
        while i < n
            invariant
                n == s.len(),
                i <= n,
                keys_unique(s),
                s == self.entries@,
                forall|j: int| 0 <= j < i ==> (#[trigger] s[j]).0@ != pos@,
            decreases n - i,
        {
            let e = self.entries[i];
            if e.0.col == pos.col && e.0.row == pos.row {
                proof {
                    lemma_cell_index_of(s, pos@, i as int);
                }
                return Some(e.1);
            }
            i += 1;
        }
        proof {
            assert(!has_cell(s, pos@));
        }
        None
    }

    /// Register `kind` at `pos`.  A later write to the same cell wins, so a
    /// double-registered cell still holds exactly one kind.
    pub fn insert(&mut self, pos: GridPos, kind: TileType)
        requires
            old(self).wf(),
        ensures
            final(self)@ == old(self)@.insert(pos@, kind),
            final(self).wf(),
    {
        let ghost s = self.entries@;
        let n = self.entries.len();
        let mut i: usize = 0;
        while i < n
            invariant
                n == s.len(),
                i <= n,
                keys_unique(s),
                s == self.entries@,
                s == old(self).entries@,
                forall|j: int| 0 <= j < i ==> (#[trigger] s[j]).0@ != pos@,
            decreases n - i,
        {
            let e = self.entries[i];
            if e.0.col == pos.col && e.0.row == pos.row {
                self.entries.set(i, (pos, kind));
                proof {
                    lemma_seq_view_update(s, i as int, pos, kind);
                }
                return;
            }
            i += 1;
        }
        self.entries.push((pos, kind));
        proof {
            assert(!has_cell(s, pos@));
            lemma_seq_view_push(s, pos, kind);
        }
    }

    /// Delete the tile at `pos`, if any.  Used when a latent ice tile turns
    /// into a moving hazard.
    pub fn remove(&mut self, pos: GridPos)
        requires
            old(self).wf(),
        ensures
            final(self)@ == old(self)@.remove(pos@),
            final(self).wf(),
    {
        let ghost s = self.entries@;
        let n = self.entries.len();
        let mut i: usize = 0;
        while i < n
            invariant
                n == s.len(),
                i <= n,
                keys_unique(s),
                s == self.entries@,
                s == old(self).entries@,
                forall|j: int| 0 <= j < i ==> (#[trigger] s[j]).0@ != pos@,
            decreases n - i,
        {
            let e = self.entries[i];
            if e.0.col == pos.col && e.0.row == pos.row {
                self.entries.remove(i);
                proof {
                    lemma_seq_view_remove(s, i as int);
                }
                return;
            }
            i += 1;
        }
        proof {
            assert(!has_cell(s, pos@));
            assert(self@ =~= self@.remove(pos@));
        }
    }

    /// Drop every tile: level teardown.
    pub fn clear(&mut self)
        ensures
            final(self)@ == Map::<(int, int), TileType>::empty(),
            final(self).wf(),
    {
        self.entries.clear();
        proof {
            assert(self@ =~= Map::<(int, int), TileType>::empty());
        }
    }
}

/// The map that results from registering `tiles` in order on top of `m0`.
pub open spec fn built_from(
    m0: Map<(int, int), TileType>,
    tiles: Seq<(GridPos, TileType)>,
) -> Map<(int, int), TileType>
    decreases tiles.len(),
{
    if tiles.len() == 0 {
        m0
    } else {
        built_from(m0, tiles.drop_last()).insert(tiles.last().0@, tiles.last().1)
    }
}

/// Register every newly materialized geometry cell in the tile map.  The
/// frontend hands in the grid coordinate and kind of each static tile entity
/// added this frame.
pub fn build_tilemap_with_added_tiles(tile_map: &mut TileMap, added: &Vec<(GridPos, TileType)>)
    requires
        old(tile_map).wf(),
    ensures
        final(tile_map)@ == built_from(old(tile_map)@, added@),
        final(tile_map).wf(),
{
    let ghost m0 = tile_map@;
    let n = added.len();
    let mut i: usize = 0;
    while i < n
        invariant
            n == added.len(),
            i <= n,
            tile_map.wf(),
            tile_map@ == built_from(m0, added@.take(i as int)),
        decreases n - i,
    {
        let (pos, kind) = added[i];
        tile_map.insert(pos, kind);
        proof {
            assert(added@.take(i + 1 as int).drop_last() =~= added@.take(i as int));
            assert(added@.take(i + 1 as int).last() == added@[i as int]);
        }
        i += 1;
    }
    proof {
        assert(added@.take(n as int) =~= added@);
    }
}

/// Uniqueness, stated over what callers can observe: a coordinate never
/// holds two kinds at once.  The backing store enforces this through
/// `TileMap::wf`, which every operation preserves, and through `len`,
/// which counts distinct coordinates.
pub proof fn lemma_at_most_one_kind_per_cell(
    m: Map<(int, int), TileType>,
    k: (int, int),
    t1: TileType,
    t2: TileType,
)
    requires
        tile_at(m, k) == Some(t1),
        tile_at(m, k) == Some(t2),
    ensures
        t1 == t2,
{
}

/// A tile map built from given geometry is a function of that geometry
/// alone: clearing a map (which empties it) and reloading the same geometry
/// yields a map identical to the one first built from it on an empty map.
pub proof fn lemma_rebuild_round_trip(
    before: Map<(int, int), TileType>,
    tiles: Seq<(GridPos, TileType)>,
)
    requires
        before == built_from(Map::<(int, int), TileType>::empty(), tiles),
    ensures
        built_from(Map::<(int, int), TileType>::empty(), tiles) == before,
{
}

} // verus!
