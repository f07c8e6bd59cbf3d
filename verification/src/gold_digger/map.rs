use vstd::prelude::*;

verus! {

use crate::grid::{
    BASE_COL_LEFT, BASE_COL_RIGHT, BASE_ROW_HIGH, BASE_X, BASE_Y, MAP_HEIGHT, MAP_WIDTH, MILLI,
    MINERAL_TOP, TILE_SIZE,
};

/// Mining work that removes a stone tile, in thousandths.
pub const STRENGTH_STONE: u64 = 15 * MILLI;
/// Mining work that removes a gold tile.
pub const STRENGTH_GOLD: u64 = 20 * MILLI;
/// What selling a gold tile's mineral brings.
pub const VALUE_GOLD: u64 = 10 * MILLI;

/// One cell of the world grid. `Sky` is the empty air above ground.
#[derive(PartialEq, Eq, Structural, Clone, Copy, Debug)]
pub enum Tile {
    Sky,
    Background,
    Base,
    Stone,
    Gold,
}

/// Whether the digger cannot pass through the tile.
pub open spec fn spec_collides(t: Tile) -> bool {
    match t {
        Tile::Stone => true,
        Tile::Gold => true,
        _ => false,
    }
}

/// The mining work, in thousandths, that removes the tile; `None` for tiles
/// that cannot be mined at all.
pub open spec fn spec_mining_strength(t: Tile) -> Option<u64> {
    match t {
        Tile::Stone => Some(STRENGTH_STONE),
        Tile::Gold => Some(STRENGTH_GOLD),
        _ => None,
    }
}

/// What selling the tile's mineral brings, in thousandths.
pub open spec fn spec_value(t: Tile) -> u64 {
    match t {
        Tile::Gold => VALUE_GOLD,
        _ => 0,
    }
}

impl Tile {
    pub fn collides(&self) -> (r: bool)
        ensures
            r == spec_collides(*self),
    {
        match self {
            Tile::Stone => true,
            Tile::Gold => true,
            _ => false,
        }
    }

    pub fn mining_strength(&self) -> (r: Option<u64>)
        ensures
            r == spec_mining_strength(*self),
    {
        match self {
            Tile::Stone => Some(STRENGTH_STONE),
            Tile::Gold => Some(STRENGTH_GOLD),
            _ => None,
        }
    }

    pub fn value(&self) -> (r: u64)
        ensures
            r == spec_value(*self),
    {
        match self {
            Tile::Gold => VALUE_GOLD,
            _ => 0,
        }
    }

    /// The mineral that a uniform roll below 2 stands for: stone or gold,
    /// each as likely as the other.
    pub fn from_roll(roll: usize) -> (t: Tile)
        ensures
            t == spec_tile_from_roll(roll),
    {
        match roll {
            0 => Tile::Stone,
            _ => Tile::Gold,
        }
    }
}

/// The mineral assigned to each value of a uniform roll below 2.
pub open spec fn spec_tile_from_roll(roll: usize) -> Tile {
    if roll == 0 {
        Tile::Stone
    } else {
        Tile::Gold
    }
}

/// Every tile that can be mined is also one the digger collides with, so a
/// mining target is always a wall of the digger's cell.
pub proof fn lemma_minable_collides(t: Tile)
    ensures
        spec_mining_strength(t) is Some ==> spec_collides(t),
{
}

/// Grid extent of a map.
pub struct Dimensions {
    pub x: usize,
    pub y: usize,
}

/// The world map: a grid of tiles, the pixel position of the base, and the
/// pixel size of a tile. Row 0 is the bottom of the world.
pub struct TileMap {
    pub dimensions: Dimensions,
    pub tiles: Vec<Vec<Tile>>,
    pub base: (u32, u32),
    pub tile_size: u32,
}

/// Marks the camera entity that follows the digger.
pub struct PlayerCamera;

/// Marks the sprite entity that renders the grid cell at `(x, y)`.
#[derive(PartialEq, Eq, Structural, Clone, Copy, Debug)]
pub struct MapTile {
    pub x: usize,
    pub y: usize,
}

/// A tile that generation buries in the mineral region.
pub open spec fn spec_mineral(t: Tile) -> bool {
    t == Tile::Stone || t == Tile::Gold
}

/// What a freshly generated map holds at `(x, y)`: minerals below the base
/// rows, the two base tiles amid open sky on the base rows, and sky above.
pub open spec fn spec_cell_ok(t: Tile, x: int, y: int) -> bool {
    if y <= MINERAL_TOP {
        spec_mineral(t)
    } else if y <= BASE_ROW_HIGH {
        if x == BASE_COL_LEFT || x == BASE_COL_RIGHT {
            t == Tile::Base
        } else {
            t == Tile::Sky
        }
    } else {
        t == Tile::Sky
    }
}

impl TileMap {
    /// The grid fills its stated dimensions, which are those of a generated
    /// world.
    pub open spec fn wf(self) -> bool {
        &&& self.dimensions.x == MAP_WIDTH
        &&& self.dimensions.y == MAP_HEIGHT
        &&& self.tiles@.len() == MAP_HEIGHT
        &&& forall|y: int|
            0 <= y < MAP_HEIGHT ==> (#[trigger] self.tiles@[y])@.len() == MAP_WIDTH
    }

    /// The tile in column `x` of row `y`.
    pub open spec fn tile_at(self, x: int, y: int) -> Tile {
        self.tiles@[y]@[x]
    }

    /// Every cell lies in the region that generation put it in.
    pub open spec fn generated(self) -> bool {
        &&& self.wf()
        &&& forall|x: int, y: int|
            0 <= x < MAP_WIDTH && 0 <= y < MAP_HEIGHT ==> spec_cell_ok(
                #[trigger] self.tile_at(x, y),
                x,
                y,
            )
    }

    pub fn width(&self) -> (r: usize)
        requires
            self.wf(),
        ensures
            r == MAP_WIDTH,
    {
        self.dimensions.x
    }

    pub fn height(&self) -> (r: usize)
        requires
            self.wf(),
        ensures
            r == MAP_HEIGHT,
    {
        self.dimensions.y
    }

    pub fn get_tile(&self, x: usize, y: usize) -> (t: Tile)
        requires
            self.wf(),
            x < MAP_WIDTH,
            y < MAP_HEIGHT,
        ensures
            t == self.tile_at(x as int, y as int),
    {
        self.tiles[y][x]
    }

    /// Replace the tile in column `x` of row `y`, leaving every other cell
    /// and the rest of the map unchanged.
    pub fn set_tile(&mut self, x: usize, y: usize, t: Tile)
        requires
            old(self).wf(),
            x < MAP_WIDTH,
            y < MAP_HEIGHT,
        ensures
            final(self).wf(),
            final(self).dimensions == old(self).dimensions,
            final(self).base == old(self).base,
            final(self).tile_size == old(self).tile_size,
            forall|i: int, j: int|
                0 <= i < MAP_WIDTH && 0 <= j < MAP_HEIGHT ==> final(self).tile_at(i, j) == (
                if i == x && j == y {
                    t
                } else {
                    old(self).tile_at(i, j)
                }),
    {
        let mut row = self.tiles.remove(y);
        row.set(x, t);
        self.tiles.insert(y, row);
        proof {
            let t0 = old(self).tiles@;
            assert(forall|j: int| 0 <= j < y ==> #[trigger] self.tiles@[j] == t0[j]);
            assert(forall|j: int| y < j < t0.len() ==> #[trigger] self.tiles@[j] == t0[j]);
            assert(self.tiles@[y as int]@ == t0[y as int]@.update(x as int, t));
        }
    }
}

/// A mineral row: a fresh even-odds roll between stone and gold in every
/// column.
fn mineral_row() -> (row: Vec<Tile>)
    ensures
        row@.len() == MAP_WIDTH,
        forall|x: int| 0 <= x < MAP_WIDTH ==> spec_mineral(#[trigger] row@[x]),
{
    let mut row: Vec<Tile> = Vec::new();
    let mut x: usize = 0;
    while x < MAP_WIDTH
        invariant
            x <= MAP_WIDTH,
            row@.len() == x,
            forall|i: int| 0 <= i < x ==> spec_mineral(#[trigger] row@[i]),
        decreases MAP_WIDTH - x,
    {
        let roll = crate::rng::random_in_range(0, 2);
        row.push(Tile::from_roll(roll));
        x = x + 1;
    }
    row
}

/// A base row: the two base tiles in the middle, open sky elsewhere.
fn base_row() -> (row: Vec<Tile>)
    ensures
        row@.len() == MAP_WIDTH,
        forall|x: int|
            0 <= x < MAP_WIDTH ==> #[trigger] row@[x] == (if x == BASE_COL_LEFT || x
                == BASE_COL_RIGHT {
                Tile::Base
            } else {
                Tile::Sky
            }),
{
    let mut row: Vec<Tile> = Vec::new();
    let mut x: usize = 0;
    while x < BASE_COL_LEFT
        invariant
            x <= BASE_COL_LEFT,
            row@.len() == x,
            forall|i: int| 0 <= i < x ==> #[trigger] row@[i] == Tile::Sky,
        decreases BASE_COL_LEFT - x,
    {
        row.push(Tile::Sky);
        x = x + 1;
    }
    row.push(Tile::Base);
    row.push(Tile::Base);
    let mut x: usize = BASE_COL_RIGHT + 1;
    while x < MAP_WIDTH
        invariant
            BASE_COL_RIGHT + 1 <= x <= MAP_WIDTH,
            row@.len() == x,
            row@[BASE_COL_LEFT as int] == Tile::Base,
            row@[BASE_COL_RIGHT as int] == Tile::Base,
            forall|i: int|
                0 <= i < x && i != BASE_COL_LEFT && i != BASE_COL_RIGHT ==> #[trigger] row@[i]
                    == Tile::Sky,
        decreases MAP_WIDTH - x,
    {
        row.push(Tile::Sky);
        x = x + 1;
    }
    row
}

/// A row of open sky.
fn sky_row() -> (row: Vec<Tile>)
    ensures
        row@.len() == MAP_WIDTH,
        forall|x: int| 0 <= x < MAP_WIDTH ==> #[trigger] row@[x] == Tile::Sky,
{
    let mut row: Vec<Tile> = Vec::new();
    let mut x: usize = 0;
    while x < MAP_WIDTH
        invariant
            x <= MAP_WIDTH,
            row@.len() == x,
            forall|i: int| 0 <= i < x ==> #[trigger] row@[i] == Tile::Sky,
        decreases MAP_WIDTH - x,
    {
        row.push(Tile::Sky);
        x = x + 1;
    }
    row
}

/// Build a fresh world: an even mix of stone and gold below the base rows,
/// the two base tiles amid open sky on the base rows, and sky above.
pub fn generate_map() -> (m: TileMap)
    ensures
        m.generated(),
        m.base == (BASE_X, BASE_Y),
        m.tile_size == TILE_SIZE,
{
    let mut tiles: Vec<Vec<Tile>> = Vec::new();
    let mut y: usize = 0;
    while y <= MINERAL_TOP
        invariant
            y <= MINERAL_TOP + 1,
            tiles@.len() == y,
            forall|j: int| 0 <= j < y ==> (#[trigger] tiles@[j])@.len() == MAP_WIDTH,
            forall|j: int, i: int|
                0 <= j < y && 0 <= i < MAP_WIDTH ==> spec_cell_ok(
                    #[trigger] tiles@[j]@[i],
                    i,
                    j,
                ),
        decreases MINERAL_TOP + 1 - y,
    {
        tiles.push(mineral_row());
        y = y + 1;
    }
    tiles.push(base_row());
    tiles.push(base_row());
    let mut y: usize = BASE_ROW_HIGH + 1;
    while y < MAP_HEIGHT
        invariant
            BASE_ROW_HIGH + 1 <= y <= MAP_HEIGHT,
            tiles@.len() == y,
            forall|j: int| 0 <= j < y ==> (#[trigger] tiles@[j])@.len() == MAP_WIDTH,
            forall|j: int, i: int|
                0 <= j < y && 0 <= i < MAP_WIDTH ==> spec_cell_ok(
                    #[trigger] tiles@[j]@[i],
                    i,
                    j,
                ),
        decreases MAP_HEIGHT - y,
    {
        tiles.push(sky_row());
        y = y + 1;
    }
    TileMap {
        dimensions: Dimensions { x: MAP_WIDTH, y: MAP_HEIGHT },
        tiles,
        base: (BASE_X, BASE_Y),
        tile_size: TILE_SIZE,
    }
}

} // verus!
