use vstd::prelude::*;

verus! {

/// Number of tile cells along each side of the square world.
pub const WORLD_SIZE: i32 = 16;

/// Side length of one tile cell in continuous world units.  Frontends divide
/// an entity's continuous position by this to obtain its grid coordinate.
pub const TILE_SIZE: i32 = 64;

/// One cell of the tile grid, addressed by signed column and row.
/// Rows grow upward: row 0 is the bottom of the world.
#[derive(Clone, Copy, PartialEq, Eq, Structural, Debug)]
pub struct GridPos {
    pub col: i32,
    pub row: i32,
}

impl View for GridPos {
    type V = (int, int);

    open spec fn view(&self) -> (int, int) {
        (self.col as int, self.row as int)
    }
}

/// A coordinate is inside the world when it indexes one of the
/// `WORLD_SIZE` cells along its axis.
pub open spec fn coord_in_bounds(c: int) -> bool {
    0 <= c && c < WORLD_SIZE
}

/// Bounds check for a single grid coordinate, column or row.
pub fn is_position_in_bounds(coord: i32) -> (r: bool)
    ensures
        r == coord_in_bounds(coord as int),
{
    0 <= coord && coord < WORLD_SIZE
}

} // verus!
