//! Conversions between world coordinates and grid coordinates.
//!
//! The grid is based on units of 1/4 tile. Tiles can be placed with
//! alignment 4 vertically, but 2 horizontally; some tiles are always
//! horizontally shifted by 1 grid unit (1/4 tile).
//!
//! World coordinates are fixed-point: one pixel is `SUBPIXELS_PER_PIXEL`
//! world units, so every conversion here is exact integer arithmetic.
use vstd::prelude::*;

use crate::tile::Offset;

verus! {

/// Grid units along one side of a tile.
pub const GRID_UNITS_PER_TILE: i32 = 4;

/// Pixels along one grid unit.
pub const PIXELS_PER_GRID_UNIT: i32 = 4;

/// World units (the fixed-point resolution of world coordinates) in one pixel.
pub const SUBPIXELS_PER_PIXEL: i64 = 256;

/// World units along one grid unit: `PIXELS_PER_GRID_UNIT * SUBPIXELS_PER_PIXEL`.
pub const WORLD_UNITS_PER_GRID_UNIT: i64 = 1024;

/// A point in world space, in units of 1/`SUBPIXELS_PER_PIXEL` pixel.
#[derive(Clone, Copy, Debug, PartialEq, Eq, Structural)]
pub struct WorldPos {
    pub x: i64,
    pub y: i64,
}

/// A location on the grid, in grid units.
#[derive(Clone, Copy, Debug, PartialEq, Eq, Structural)]
pub struct GridPosition {
    pub x: i32,
    pub y: i32,
}

/// The grid column or row that holds the world coordinate `w` (floor).
pub open spec fn floor_grid(w: int) -> int {
    w / (WORLD_UNITS_PER_GRID_UNIT as int)
}

/// The grid coordinate nearest to the world coordinate `w`, halves rounded
/// away from zero.
pub open spec fn round_grid(w: int) -> int {
    let d = WORLD_UNITS_PER_GRID_UNIT as int;
    if w >= 0 {
        (w + d / 2) / d
    } else {
        -((-w + d / 2) / d)
    }
}

/// The bottom of the tile row that holds grid row coordinate `y`.
pub open spec fn row_base(y: int) -> int {
    (y / (GRID_UNITS_PER_TILE as int)) * (GRID_UNITS_PER_TILE as int)
}

/// `v` is a representable grid coordinate.
pub open spec fn fits_i32(v: int) -> bool {
    i32::MIN <= v <= i32::MAX
}

/// The world coordinate of grid coordinate `g`.
pub open spec fn world_of(g: int) -> int {
    g * (WORLD_UNITS_PER_GRID_UNIT as int)
}

/// The column that a tile with horizontal alignment `offset` anchors at, for a
/// pointer in column `x`: under even alignment an odd column moves one unit
/// left, under odd alignment an even column moves one unit right.
pub open spec fn align_column(x: int, offset: Offset) -> int {
    match offset {
        Offset::Even => if x % 2 == 0 { x } else { x - 1 },
        Offset::Odd => if x % 2 == 0 { x + 1 } else { x },
    }
}

/// The grid position of world point `p` under floor conversion with rows
/// snapped to tile rows, when it fits in the grid's range.
pub open spec fn snap_row(p: WorldPos) -> Option<GridPosition> {
    let x = floor_grid(p.x as int);
    let y = floor_grid(p.y as int);
    if fits_i32(x) && fits_i32(y) {
        Some(GridPosition { x: x as i32, y: row_base(y) as i32 })
    } else {
        None
    }
}

/// The legal anchor for a tile with alignment `offset` under world point `p`.
pub open spec fn snap_with_offset(p: WorldPos, offset: Offset) -> Option<GridPosition> {
    match snap_row(p) {
        Some(g) => Some(GridPosition { x: align_column(g.x as int, offset) as i32, y: g.y }),
        None => None,
    }
}

/// The grid position nearest to world point `p`, when it fits in the grid's range.
pub open spec fn nearest(p: WorldPos) -> Option<GridPosition> {
    let x = round_grid(p.x as int);
    let y = round_grid(p.y as int);
    if fits_i32(x) && fits_i32(y) {
        Some(GridPosition { x: x as i32, y: y as i32 })
    } else {
        None
    }
}

/// The distance between `a` and `b` on a line.
pub open spec fn abs_diff(a: int, b: int) -> int {
    if a >= b { a - b } else { b - a }
}

/// The grid coordinate that holds world coordinate `w`.
fn floor_to_grid(w: i64) -> (r: i64)
    ensures
        r == floor_grid(w as int),
{
    w.checked_div_euclid(WORLD_UNITS_PER_GRID_UNIT).unwrap()
}

/// The grid coordinate nearest to world coordinate `w`.
fn round_to_grid(w: i64) -> (r: i64)
    ensures
        r == round_grid(w as int),
{
    let d: i128 = WORLD_UNITS_PER_GRID_UNIT as i128;
    let wide: i128 = w as i128;
    let q: i128 = if wide >= 0 {
        (wide + d / 2) / d
    } else {
        -((-wide + d / 2) / d)
    };
    q as i64
}

/// `v` is a representable grid coordinate.
fn in_i32(v: i64) -> (r: bool)
    ensures
        r == fits_i32(v as int),
{
    i32::MIN as i64 <= v && v <= i32::MAX as i64
}

impl GridPosition {
    /// Convert world coordinates to grid coordinates, snapping to legal tile
    /// positions for a tile with horizontal alignment `offset`.
    ///
    /// Returns `None` when the point lies outside the grid's range.
    pub fn from_world_with_offset(pos: WorldPos, offset: Offset) -> (r: Option<GridPosition>)
        ensures
            r == snap_with_offset(pos, offset),
    {
        match GridPosition::from_world_snap_row(pos) {
            Some(g) => {
                let mut x = g.x;
                match offset {
                    Offset::Even => {
                        if x % 2 != 0 {
                            x = x - 1;
                        }
                    },
                    Offset::Odd => {
                        if x % 2 == 0 {
                            x = x + 1;
                        }
                    },
                }
                Some(GridPosition { x, y: g.y })
            },
            None => None,
        }
    }

    /// Convert world coordinates to grid coordinates, rounding towards the
    /// nearest `GridPosition`.
    ///
    /// Returns `None` when the point lies outside the grid's range.
    pub fn from_world(pos: WorldPos) -> (r: Option<GridPosition>)
        ensures
            r == nearest(pos),
    {
        let x = round_to_grid(pos.x);
        let y = round_to_grid(pos.y);
        if in_i32(x) && in_i32(y) {
            Some(GridPosition { x: x as i32, y: y as i32 })
        } else {
            None
        }
    }

    /// Convert world coordinates to grid coordinates, flooring both axes and
    /// snapping the row down to the bottom of its tile row.
    ///
    /// Returns `None` when the point lies outside the grid's range.
    pub fn from_world_snap_row(pos: WorldPos) -> (r: Option<GridPosition>)
        ensures
            r == snap_row(pos),
    {
        let x = floor_to_grid(pos.x);
        let y = floor_to_grid(pos.y);
        if in_i32(x) && in_i32(y) {
            let y = y as i32;
            let row = y.checked_div_euclid(GRID_UNITS_PER_TILE).unwrap() * GRID_UNITS_PER_TILE;
            Some(GridPosition { x: x as i32, y: row })
        } else {
            None
        }
    }

    /// The world point at this grid position.
    pub open spec fn spec_to_world(self) -> WorldPos {
        WorldPos { x: world_of(self.x as int) as i64, y: world_of(self.y as int) as i64 }
    }

    /// Convert grid coordinates to world coordinates.
    pub fn to_world(self) -> (r: WorldPos)
        ensures
            r == self.spec_to_world(),
    {
        WorldPos {
            x: self.x as i64 * WORLD_UNITS_PER_GRID_UNIT,
            y: self.y as i64 * WORLD_UNITS_PER_GRID_UNIT,
        }
    }

    /// The absolute horizontal and vertical distance to another grid position.
    pub fn distance_to(self, other: GridPosition) -> (r: (u32, u32))
        ensures
            r.0 == abs_diff(self.x as int, other.x as int),
            r.1 == abs_diff(self.y as int, other.y as int),
    {
        let dx: i64 = self.x as i64 - other.x as i64;
        let dy: i64 = self.y as i64 - other.y as i64;
        let dx: i64 = if dx < 0 { -dx } else { dx };
        let dy: i64 = if dy < 0 { -dy } else { dy };
        (dx as u32, dy as u32)
    }
}

/// Rounding the world point of a grid position back to the grid gives that
/// position again, so converting it to world coordinates once more gives the
/// same world point.
pub proof fn lemma_round_trip(p: GridPosition)
    ensures
        nearest(p.spec_to_world()) == Some(p),
        nearest(p.spec_to_world()).unwrap().spec_to_world() == p.spec_to_world(),
{
    lemma_round_grid_of_world(p.x as int);
    lemma_round_grid_of_world(p.y as int);
}

proof fn lemma_round_grid_of_world(k: int)
    requires
        fits_i32(k),
    ensures
        world_of(k) == k * 1024,
        round_grid(world_of(k)) == k,
{
    if k >= 0 {
        assert((k * 1024 + 512) / 1024 == k);
    } else {
        assert((-(k * 1024) + 512) / 1024 == -k);
    }
}

/// A snapped tile anchor lies at the bottom of a tile row, in a column of the
/// required parity, at most one column from the column under the pointer:
/// one to the left for even alignment, one to the right for odd.
pub proof fn lemma_snapped_anchor_is_legal(p: WorldPos, offset: Offset)
    requires
        snap_with_offset(p, offset) is Some,
    ensures
        ({
            let g = snap_with_offset(p, offset).unwrap();
            let x = floor_grid(p.x as int);
            &&& g.y % GRID_UNITS_PER_TILE == 0
            &&& g.y <= floor_grid(p.y as int) < g.y + GRID_UNITS_PER_TILE
            &&& offset == Offset::Even ==> g.x % 2 == 0 && (g.x == x || g.x == x - 1)
            &&& offset == Offset::Odd ==> g.x % 2 == 1 && (g.x == x || g.x == x + 1)
        }),
{
}

} // verus!
