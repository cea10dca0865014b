//! Tile kinds, their footprints and their marble sockets.
use vstd::prelude::*;
use vstd::string::*;

use crate::grid::{
    snap_row, world_of, GridPosition, WorldPos, GRID_UNITS_PER_TILE, WORLD_UNITS_PER_GRID_UNIT,
};

verus! {

/// Marble Y locations inside a tile.
///
/// Each level is a grid offset above the tile's bottom edge: `Bottom` is 25%
/// from the bottom edge, `Middle` halfway and `Top` 25% from the top edge.
#[derive(Clone, Copy, Debug, PartialEq, Eq, Structural)]
pub enum MarbleY {
    Bottom,
    Middle,
    Top,
}

/// The grid offset of a marble level above the tile's bottom edge.
pub open spec fn level(y: MarbleY) -> int {
    match y {
        MarbleY::Bottom => 1,
        MarbleY::Middle => 2,
        MarbleY::Top => 3,
    }
}

impl MarbleY {
    /// Convert the marble Y location to a grid offset.
    pub fn to_grid(self) -> (r: i32)
        ensures
            r == level(self),
    {
        match self {
            MarbleY::Bottom => 1,
            MarbleY::Middle => 2,
            MarbleY::Top => 3,
        }
    }
}

/// The location of an input or output within a tile.
#[derive(Clone, Copy, Debug, PartialEq, Eq, Structural)]
pub struct IoCoord {
    /// The X coordinate, in grid units from the tile's left edge.
    ///
    /// For a 1x1 tile, the allowed values are 1, 2, or 3. 0 and 4 are the
    /// corners, which are not allowed.
    pub x: u8,
    /// The marble level.
    pub y: MarbleY,
}

/// The grid position of socket `c` of a tile with footprint `e`, drawn
/// mirrored horizontally when `flip_x` and vertically when `flip_y`.
///
/// A flip moves the reference edge and reverses the step direction, so the
/// sockets move with the mirrored artwork.
pub open spec fn socket_grid(c: IoCoord, e: GridExtent, flip_x: bool, flip_y: bool) -> (int, int) {
    let x = if flip_x {
        e.origin.x + e.width - c.x
    } else {
        e.origin.x + c.x
    };
    let y = if flip_y {
        e.origin.y + 1 - level(c.y)
    } else {
        e.origin.y + level(c.y)
    };
    (x, y)
}

/// The world position of socket `c`; see `socket_grid`.
pub open spec fn socket_world(c: IoCoord, e: GridExtent, flip_x: bool, flip_y: bool) -> WorldPos {
    let g = socket_grid(c, e, flip_x, flip_y);
    WorldPos { x: world_of(g.0) as i64, y: world_of(g.1) as i64 }
}

/// The socket at column `x` on the bottom level.
pub open spec fn bottom_at(x: u8) -> IoCoord {
    IoCoord { x, y: MarbleY::Bottom }
}

/// The socket at column `x` on the top level.
pub open spec fn top_at(x: u8) -> IoCoord {
    IoCoord { x, y: MarbleY::Top }
}

impl IoCoord {
    /// Create an `IoCoord` on the bottom edge of a tile.
    pub fn bottom(x: u8) -> (r: IoCoord)
        ensures
            r == bottom_at(x),
    {
        IoCoord { x, y: MarbleY::Bottom }
    }

    /// Create an `IoCoord` on the top edge of a tile.
    pub fn top(x: u8) -> (r: IoCoord)
        ensures
            r == top_at(x),
    {
        IoCoord { x, y: MarbleY::Top }
    }

    /// Convert to world coordinates, given the footprint of the tile and how
    /// its artwork is mirrored.
    pub fn to_world(self, tile_pos: GridExtent, flip_x: bool, flip_y: bool) -> (r: WorldPos)
        ensures
            r == socket_world(self, tile_pos, flip_x, flip_y),
    {
        // The tile's reference corner, and the direction (+1 or -1) in which
        // the socket offsets are taken.
        let mut x: i64 = tile_pos.origin.x as i64;
        let mut y: i64 = tile_pos.origin.y as i64;
        let mut x_direction: i64 = 1;
        let mut y_direction: i64 = 1;
        if flip_x {
            x = x + tile_pos.width as i64;
            x_direction = -1;
        }
        if flip_y {
            y = y + 1;
            y_direction = -1;
        }
        x = x + x_direction * (self.x as i64);
        y = y + y_direction * (self.y.to_grid() as i64);
        WorldPos { x: x * WORLD_UNITS_PER_GRID_UNIT, y: y * WORLD_UNITS_PER_GRID_UNIT }
    }
}

/// The marble locations of one tile kind.
///
/// Inputs are places where marbles may enter from an adjacent tile. Outputs
/// are locations where marbles may exit the tile. Sticky points are places
/// where marbles may reside until perturbed by another marble.
pub struct Io {
    /// Places where marbles may enter.
    pub inputs: Vec<IoCoord>,
    /// Places where marbles may leave.
    pub outputs: Vec<IoCoord>,
    /// Places where marbles may stay put for a while.
    pub sticky: Vec<IoCoord>,
}

/// The kinds of tile.
#[derive(Clone, Copy, Debug, PartialEq, Eq, Structural)]
pub enum Tile {
    Canute,
    Shimmy,
    Switch,
    Turn,
    Distributor,
    LongTurn,
    Path,
    Swap,
    Trap,
    Xor,
}

/// Every tile kind, in the order in which `Tile::next` cycles through them.
pub open spec fn tile_order() -> Seq<Tile> {
    seq![
        Tile::Canute,
        Tile::Shimmy,
        Tile::Switch,
        Tile::Turn,
        Tile::Distributor,
        Tile::LongTurn,
        Tile::Path,
        Tile::Swap,
        Tile::Trap,
        Tile::Xor,
    ]
}

/// Which offset (horizontal alignment) a tile has.
#[derive(Clone, Copy, Debug, PartialEq, Eq, Structural)]
pub enum Offset {
    Even,
    Odd,
}

impl Tile {
    /// The position of this kind in `tile_order()`.
    pub open spec fn ordinal(self) -> int {
        match self {
            Tile::Canute => 0,
            Tile::Shimmy => 1,
            Tile::Switch => 2,
            Tile::Turn => 3,
            Tile::Distributor => 4,
            Tile::LongTurn => 5,
            Tile::Path => 6,
            Tile::Swap => 7,
            Tile::Trap => 8,
            Tile::Xor => 9,
        }
    }

    /// The asset identifier of this kind.
    pub open spec fn spec_name(self) -> Seq<char> {
        match self {
            Tile::Canute => "canute"@,
            Tile::Shimmy => "shimmy"@,
            Tile::Switch => "switch"@,
            Tile::Turn => "turn"@,
            Tile::Distributor => "distributor"@,
            Tile::LongTurn => "long_turn"@,
            Tile::Path => "path"@,
            Tile::Swap => "swap"@,
            Tile::Trap => "trap"@,
            Tile::Xor => "xor"@,
        }
    }

    /// How many tile squares wide this kind is.
    pub open spec fn squares(self) -> int {
        match self {
            Tile::Path | Tile::Shimmy => 1,
            Tile::Canute | Tile::Swap | Tile::Switch | Tile::Turn | Tile::Xor => 2,
            Tile::Distributor | Tile::LongTurn | Tile::Trap => 3,
        }
    }

    /// The footprint width of this kind, in grid units.
    pub open spec fn spec_grid_width(self) -> int {
        GRID_UNITS_PER_TILE * self.squares()
    }

    /// The horizontal alignment this kind needs: the shimmy's artwork is
    /// shifted by a quarter tile, so it alone anchors on odd columns.
    pub open spec fn spec_offset(self) -> Offset {
        match self {
            Tile::Shimmy => Offset::Odd,
            _ => Offset::Even,
        }
    }

    /// The output sockets of this kind.
    pub open spec fn spec_outputs(self) -> Seq<IoCoord> {
        match self {
            Tile::Canute => seq![bottom_at(2), top_at(4), top_at(6)],
            Tile::Shimmy => seq![top_at(3)],
            Tile::Switch => seq![top_at(2), top_at(4), top_at(6)],
            Tile::Turn => seq![bottom_at(2), bottom_at(6)],
            Tile::Distributor => seq![top_at(2), top_at(6), top_at(10)],
            Tile::LongTurn => seq![bottom_at(2), bottom_at(6), bottom_at(10)],
            Tile::Path => seq![top_at(2)],
            Tile::Swap => seq![top_at(2), top_at(6)],
            Tile::Trap => seq![top_at(2), top_at(6), top_at(8)],
            Tile::Xor => seq![top_at(2), top_at(4), top_at(6)],
        }
    }

    /// The input sockets of this kind.
    pub open spec fn spec_inputs(self) -> Seq<IoCoord> {
        match self {
            Tile::Path => seq![bottom_at(2)],
            _ => seq![],
        }
    }

    /// The asset identifier of this kind.
    pub fn name(&self) -> (r: &'static str)
        ensures
            r@ == self.spec_name(),
    {
        match self {
            Tile::Canute => "canute",
            Tile::Shimmy => "shimmy",
            Tile::Switch => "switch",
            Tile::Turn => "turn",
            Tile::Distributor => "distributor",
            Tile::LongTurn => "long_turn",
            Tile::Path => "path",
            Tile::Swap => "swap",
            Tile::Trap => "trap",
            Tile::Xor => "xor",
        }
    }

    /// The image file that draws this kind.
    pub fn sprite_filename(&self) -> (r: String)
        ensures
            r@ == self.spec_name() + ".png"@,
    {
        String::from_str(self.name()).concat(".png")
    }

    /// The footprint width of this kind, in grid units.
    pub fn grid_width(&self) -> (r: i32)
        ensures
            r == self.spec_grid_width(),
    {
        let squares: i32 = match self {
            Tile::Path | Tile::Shimmy => 1,
            Tile::Canute | Tile::Swap | Tile::Switch | Tile::Turn | Tile::Xor => 2,
            Tile::Distributor | Tile::LongTurn | Tile::Trap => 3,
        };
        GRID_UNITS_PER_TILE * squares
    }

    /// The kind after this one in the cyclic selection order.
    pub fn next(&self) -> (r: Tile)
        ensures
            r == tile_order()[(self.ordinal() + 1) % 10],
    {
        match self {
            Tile::Canute => Tile::Shimmy,
            Tile::Shimmy => Tile::Switch,
            Tile::Switch => Tile::Turn,
            Tile::Turn => Tile::Distributor,
            Tile::Distributor => Tile::LongTurn,
            Tile::LongTurn => Tile::Path,
            Tile::Path => Tile::Swap,
            Tile::Swap => Tile::Trap,
            Tile::Trap => Tile::Xor,
            Tile::Xor => Tile::Canute,
        }
    }

    /// Whether this is an "even" tile (horizontal alignment 0.0 or 0.5 of a
    /// tile) or an "odd" tile (0.25 or 0.75).
    pub fn offset(&self) -> (r: Offset)
        ensures
            r == self.spec_offset(),
    {
        match self {
            Tile::Shimmy => Offset::Odd,
            _ => Offset::Even,
        }
    }

    /// The footprint of this kind anchored at `origin`.
    pub fn extent(&self, origin: GridPosition) -> (r: GridExtent)
        ensures
            r == (GridExtent { origin, width: self.spec_grid_width() as i32 }),
            r.wf(),
    {
        GridExtent { origin, width: self.grid_width() }
    }

    /// The output coordinates of this kind.
    pub fn outputs(&self) -> (r: Vec<IoCoord>)
        ensures
            r@ == self.spec_outputs(),
    {
        self.io().outputs
    }

    /// The marble locations of this kind.
    pub fn io(&self) -> (r: Io)
        ensures
            r.inputs@ == self.spec_inputs(),
            r.outputs@ == self.spec_outputs(),
            r.sticky@ == Seq::<IoCoord>::empty(),
    {
        let inputs = match self {
            Tile::Path => vec![IoCoord::bottom(2)],
            _ => Vec::new(),
        };
        let outputs = match self {
            Tile::Canute => vec![IoCoord::bottom(2), IoCoord::top(4), IoCoord::top(6)],
            Tile::Shimmy => vec![IoCoord::top(3)],
            Tile::Switch => vec![IoCoord::top(2), IoCoord::top(4), IoCoord::top(6)],
            Tile::Turn => vec![IoCoord::bottom(2), IoCoord::bottom(6)],
            Tile::Distributor => vec![IoCoord::top(2), IoCoord::top(6), IoCoord::top(10)],
            Tile::LongTurn => vec![IoCoord::bottom(2), IoCoord::bottom(6), IoCoord::bottom(10)],
            Tile::Path => vec![IoCoord::top(2)],
            Tile::Swap => vec![IoCoord::top(2), IoCoord::top(6)],
            Tile::Trap => vec![IoCoord::top(2), IoCoord::top(6), IoCoord::top(8)],
            Tile::Xor => vec![IoCoord::top(2), IoCoord::top(4), IoCoord::top(6)],
        };
        proof {
            assert(outputs@ =~= self.spec_outputs());
            assert(inputs@ =~= self.spec_inputs());
        }
        Io { inputs, outputs, sticky: Vec::new() }
    }
}

/// Every tile kind, in selection order.
pub fn all_tiles() -> (r: Vec<Tile>)
    ensures
        r@ == tile_order(),
{
    let r = vec![
        Tile::Canute,
        Tile::Shimmy,
        Tile::Switch,
        Tile::Turn,
        Tile::Distributor,
        Tile::LongTurn,
        Tile::Path,
        Tile::Swap,
        Tile::Trap,
        Tile::Xor,
    ];
    proof {
        assert(r@ =~= tile_order());
    }
    r
}

impl Default for Tile {
    fn default() -> (r: Tile)
        ensures
            r == Tile::Path,
    {
        Tile::Path
    }
}

/// The grid area covered by a tile: `width` grid units to the right of
/// `origin`, on `origin`'s row.
#[derive(Clone, Copy, Debug, PartialEq, Eq, Structural)]
pub struct GridExtent {
    pub origin: GridPosition,
    pub width: i32,
}

impl GridExtent {
    /// A footprint covers at least one grid unit.
    pub open spec fn wf(self) -> bool {
        self.width > 0
    }

    /// Two footprints overlap: same row, and neither half-open span
    /// `[x, x + width)` lies entirely to one side of the other.
    pub open spec fn spec_intersects(self, other: GridExtent) -> bool {
        &&& self.origin.y == other.origin.y
        &&& self.origin.x < other.origin.x + other.width
        &&& other.origin.x < self.origin.x + self.width
    }

    /// The grid position `g` lies on this footprint's row, within its span.
    pub open spec fn covers(self, g: GridPosition) -> bool {
        &&& g.y == self.origin.y
        &&& self.origin.x <= g.x < self.origin.x + self.width
    }

    /// The world point `p`, converted with rows snapped, lies on this footprint.
    pub open spec fn spec_contains(self, p: WorldPos) -> bool {
        match snap_row(p) {
            Some(g) => self.covers(g),
            None => false,
        }
    }

    /// Check if this extent contains a world position.
    pub fn contains(&self, world_pos: WorldPos) -> (r: bool)
        ensures
            r == self.spec_contains(world_pos),
    {
        let grid_pos = match GridPosition::from_world_snap_row(world_pos) {
            Some(g) => g,
            None => {
                return false;
            },
        };
        // wrong row
        if self.origin.y != grid_pos.y {
            return false;
        }
        // position is left of extent
        if grid_pos.x < self.origin.x {
            return false;
        }
        // position is right of extent
        if grid_pos.x as i64 >= self.origin.x as i64 + self.width as i64 {
            return false;
        }
        true
    }

    /// Check if this extent intersects another extent.
    pub fn intersects(&self, other: &GridExtent) -> (r: bool)
        ensures
            r == self.spec_intersects(*other),
    {
        // wrong row
        if self.origin.y != other.origin.y {
            return false;
        }
        // self is entirely left of other
        if self.origin.x as i64 + self.width as i64 <= other.origin.x as i64 {
            return false;
        }
        // other is entirely left of self
        if other.origin.x as i64 + other.width as i64 <= self.origin.x as i64 {
            return false;
        }
        true
    }
}

/// `intersects` is symmetric.
pub proof fn lemma_intersects_symmetric(a: GridExtent, b: GridExtent)
    ensures
        a.spec_intersects(b) == b.spec_intersects(a),
{
}

/// A footprint always intersects itself.
pub proof fn lemma_intersects_itself(e: GridExtent)
    requires
        e.wf(),
    ensures
        e.spec_intersects(e),
{
}

/// Footprints on different rows never intersect.
pub proof fn lemma_different_rows_disjoint(a: GridExtent, b: GridExtent)
    requires
        a.origin.y != b.origin.y,
    ensures
        !a.spec_intersects(b),
{
}

/// Footprints that touch, the second starting where the first ends on the
/// same row, do not intersect.
pub proof fn lemma_touching_disjoint(a: GridExtent, b: GridExtent)
    requires
        a.origin.y == b.origin.y,
        b.origin.x == a.origin.x + a.width,
    ensures
        !a.spec_intersects(b),
        !b.spec_intersects(a),
{
}

/// A footprint contains exactly the world points whose row-snapped grid
/// position lies on its row within `[origin.x, origin.x + width)`.
pub proof fn lemma_contains_by_row_snap(e: GridExtent, p: WorldPos)
    ensures
        match snap_row(p) {
            Some(g) => e.spec_contains(p) == (g.y == e.origin.y && e.origin.x <= g.x && g.x
                < e.origin.x + e.width),
            None => !e.spec_contains(p),
        },
{
}

/// The vertical line through the horizontal middle of footprint `e` mirrors
/// world x coordinate `x` to this one.
pub open spec fn mirror_x(e: GridExtent, x: int) -> int {
    2 * world_of(e.origin.x as int) + world_of(e.width as int) - x
}

/// Flipping a tile horizontally reflects each socket about the vertical line
/// through the footprint's horizontal middle, and keeps its height.
pub proof fn lemma_flip_x_mirrors_socket(c: IoCoord, e: GridExtent)
    ensures
        socket_world(c, e, true, false).x == mirror_x(e, socket_world(c, e, false, false).x as int),
        socket_world(c, e, true, false).y == socket_world(c, e, false, false).y,
{
}

/// A marble.
#[derive(Clone, Copy, Debug, PartialEq, Eq, Structural)]
pub struct Marble;

impl Marble {
    /// The image file that draws a marble.
    pub fn sprite_filename() -> (r: &'static str)
        ensures
            r@ == "marble.png"@,
    {
        "marble.png"
    }
}

} // verus!
