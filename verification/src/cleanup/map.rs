use vstd::prelude::*;

verus! {

use crate::grid::{
    BASE_COL_LEFT, BASE_COL_RIGHT, BASE_ROW_HIGH, BASE_X, BASE_Y, MAP_HEIGHT, MAP_WIDTH, MILLI,
    MINERAL_TOP, TILE_SIZE,
};

/// Mining work that removes a stone tile, in thousandths.
pub const STRENGTH_STONE: u64 = 10 * MILLI;
/// Mining work that removes a tank-upgrade tile.
pub const STRENGTH_TANK_UPGRADE: u64 = 5 * MILLI;
/// Mining work that removes a waste tile.
pub const STRENGTH_WASTE: u64 = 5 * MILLI;
/// Mining work that removes a silver tile.
pub const STRENGTH_SILVER: u64 = 20 * MILLI;
/// Mining work that removes a gold tile.
pub const STRENGTH_GOLD: u64 = 30 * MILLI;
/// Mining work that removes a diamond tile.
pub const STRENGTH_DIAMOND: u64 = 50 * MILLI;

/// Money granted for mining silver, in thousandths.
pub const MONEY_SILVER: u64 = 5 * MILLI;
/// Money granted for mining gold.
pub const MONEY_GOLD: u64 = 20 * MILLI;
/// Money granted for mining diamond.
pub const MONEY_DIAMOND: u64 = 50 * MILLI;
/// Fuel and tank capacity granted by a tank-upgrade tile.
pub const TANK_UPGRADE_FUEL: u64 = 5 * MILLI;

/// One cell of the world grid.
#[derive(PartialEq, Eq, Structural, Clone, Copy, Debug)]
pub enum Tile {
    Background,
    Border,
    TankUpgrade,
    Base,
    Stone,
    Gold,
    Waste,
    Diamond,
    Silver,
}

/// What mining a tile away grants the digger.
#[derive(PartialEq, Eq, Structural, Clone, Copy, Debug)]
pub enum MiningEffect {
    Money(u64),
    TankUpgrade(u64),
    CollectedWaste,
}

/// Whether the digger cannot pass through the tile.
pub open spec fn spec_collides(t: Tile) -> bool {
    match t {
        Tile::Stone => true,
        Tile::Silver => true,
        Tile::Gold => true,
        Tile::Diamond => true,
        Tile::Border => true,
        Tile::TankUpgrade => true,
        Tile::Waste => true,
        _ => false,
    }
}

/// The mining work, in thousandths, that removes the tile; `None` for tiles
/// that cannot be mined at all.
pub open spec fn spec_mining_strength(t: Tile) -> Option<u64> {
    match t {
        Tile::Stone => Some(STRENGTH_STONE),
        Tile::TankUpgrade => Some(STRENGTH_TANK_UPGRADE),
        Tile::Waste => Some(STRENGTH_WASTE),
        Tile::Silver => Some(STRENGTH_SILVER),
        Tile::Gold => Some(STRENGTH_GOLD),
        Tile::Diamond => Some(STRENGTH_DIAMOND),
        _ => None,
    }
}

/// The reward for mining the tile away, if any.
pub open spec fn spec_effect(t: Tile) -> Option<MiningEffect> {
    match t {
        Tile::Silver => Some(MiningEffect::Money(MONEY_SILVER)),
        Tile::Gold => Some(MiningEffect::Money(MONEY_GOLD)),
        Tile::Diamond => Some(MiningEffect::Money(MONEY_DIAMOND)),
        Tile::TankUpgrade => Some(MiningEffect::TankUpgrade(TANK_UPGRADE_FUEL)),
        Tile::Waste => Some(MiningEffect::CollectedWaste),
        _ => None,
    }
}

impl Tile {
    pub fn collides(&self) -> (r: bool)
        ensures
            r == spec_collides(*self),
    {
        match self {
            Tile::Stone => true,
            Tile::Silver => true,
            Tile::Gold => true,
            Tile::Diamond => true,
            Tile::Border => true,
            Tile::TankUpgrade => true,
            Tile::Waste => true,
            _ => false,
        }
    }

    pub fn mining_strength(&self) -> (r: Option<u64>)
        ensures
            r == spec_mining_strength(*self),
    {
        match self {
            Tile::Stone => Some(STRENGTH_STONE),
            Tile::TankUpgrade => Some(STRENGTH_TANK_UPGRADE),
            Tile::Waste => Some(STRENGTH_WASTE),
            Tile::Silver => Some(STRENGTH_SILVER),
            Tile::Gold => Some(STRENGTH_GOLD),
            Tile::Diamond => Some(STRENGTH_DIAMOND),
            _ => None,
        }
    }

    pub fn effect(&self) -> (r: Option<MiningEffect>)
        ensures
            r == spec_effect(*self),
    {
        match self {
            Tile::Silver => Some(MiningEffect::Money(MONEY_SILVER)),
            Tile::Gold => Some(MiningEffect::Money(MONEY_GOLD)),
            Tile::Diamond => Some(MiningEffect::Money(MONEY_DIAMOND)),
            Tile::TankUpgrade => Some(MiningEffect::TankUpgrade(TANK_UPGRADE_FUEL)),
            Tile::Waste => Some(MiningEffect::CollectedWaste),
            _ => None,
        }
    }

    /// The mineral that a uniform roll below 100 stands for: five in a
    /// hundred silver, two gold, one diamond, the rest plain stone.
    pub fn from_roll(roll: usize) -> (t: Tile)
        ensures
            t == spec_tile_from_roll(roll),
    {
        match roll {
            0..=4 => Tile::Silver,
            5..=6 => Tile::Gold,
            7 => Tile::Diamond,
            _ => Tile::Stone,
        }
    }
}

/// The mineral assigned to each value of a uniform roll below 100.
pub open spec fn spec_tile_from_roll(roll: usize) -> Tile {
    if roll <= 4 {
        Tile::Silver
    } else if roll <= 6 {
        Tile::Gold
    } else if roll == 7 {
        Tile::Diamond
    } else {
        Tile::Stone
    }
}

/// Every tile that can be mined is also one the digger collides with, so a
/// mining target is always a wall of the digger's cell.
pub proof fn lemma_minable_collides(t: Tile)
    ensures
        spec_mining_strength(t) is Some ==> spec_collides(t),
{
}

/// Grid extent of a map.
pub struct Dimensions {
    pub x: usize,
    pub y: usize,
}

/// The world map: a grid of tiles, the pixel position of the base, and the
/// pixel size of a tile. Row 0 is the bottom of the world.
pub struct TileMap {
    pub dimensions: Dimensions,
    pub tiles: Vec<Vec<Tile>>,
    pub base: (u32, u32),
    pub tile_size: u32,
}

/// Marks the camera entity that follows the digger.
pub struct PlayerCamera;

/// Marks the sprite entity that renders the grid cell at `(x, y)`.
#[derive(PartialEq, Eq, Structural, Clone, Copy, Debug)]
pub struct MapTile {
    pub x: usize,
    pub y: usize,
}

/// A tile that generation buries in the mineral region.
pub open spec fn spec_mineral(t: Tile) -> bool {
    ||| t == Tile::Stone
    ||| t == Tile::Silver
    ||| t == Tile::Gold
    ||| t == Tile::Diamond
    ||| t == Tile::TankUpgrade
    ||| t == Tile::Waste
}

/// What a freshly generated map holds at `(x, y)`: a border wall all the way
/// around, the two base tiles amid background on the base rows, open sky
/// above them, and minerals everywhere below.
pub open spec fn spec_cell_ok(t: Tile, x: int, y: int) -> bool {
    if y == 0 || y == MAP_HEIGHT - 1 || x == 0 || x == MAP_WIDTH - 1 {
        t == Tile::Border
    } else if y <= MINERAL_TOP {
        spec_mineral(t)
    } else if y <= BASE_ROW_HIGH {
        if x == BASE_COL_LEFT || x == BASE_COL_RIGHT {
            t == Tile::Base
        } else {
            t == Tile::Background
        }
    } else {
        t == Tile::Background
    }
}

impl TileMap {
    /// The grid fills its stated dimensions, which are those of a generated
    /// world.
    pub open spec fn wf(self) -> bool {
        &&& self.dimensions.x == MAP_WIDTH
        &&& self.dimensions.y == MAP_HEIGHT
        &&& self.tiles@.len() == MAP_HEIGHT
        &&& forall|y: int|
            0 <= y < MAP_HEIGHT ==> (#[trigger] self.tiles@[y])@.len() == MAP_WIDTH
    }

    /// The tile in column `x` of row `y`.
    pub open spec fn tile_at(self, x: int, y: int) -> Tile {
        self.tiles@[y]@[x]
    }

    /// Every cell lies in the region that generation put it in.
    pub open spec fn generated(self) -> bool {
        &&& self.wf()
        &&& forall|x: int, y: int|
            0 <= x < MAP_WIDTH && 0 <= y < MAP_HEIGHT ==> spec_cell_ok(
                #[trigger] self.tile_at(x, y),
                x,
                y,
            )
    }

    /// Every cell lies in the region play may leave it in.
    pub open spec fn playable(self) -> bool {
        &&& self.wf()
        &&& forall|x: int, y: int|
            0 <= x < MAP_WIDTH && 0 <= y < MAP_HEIGHT ==> spec_playable_cell(
                #[trigger] self.tile_at(x, y),
                x,
                y,
            )
    }

    pub fn width(&self) -> (r: usize)
        requires
            self.wf(),
        ensures
            r == MAP_WIDTH,
    {
        self.dimensions.x
    }

    pub fn height(&self) -> (r: usize)
        requires
            self.wf(),
        ensures
            r == MAP_HEIGHT,
    {
        self.dimensions.y
    }

    pub fn get_tile(&self, x: usize, y: usize) -> (t: Tile)
        requires
            self.wf(),
            x < MAP_WIDTH,
            y < MAP_HEIGHT,
        ensures
            t == self.tile_at(x as int, y as int),
    {
        self.tiles[y][x]
    }

    /// Replace the tile in column `x` of row `y`, leaving every other cell
    /// and the rest of the map unchanged.
    pub fn set_tile(&mut self, x: usize, y: usize, t: Tile)
        requires
            old(self).wf(),
            x < MAP_WIDTH,
            y < MAP_HEIGHT,
        ensures
            final(self).wf(),
            final(self).dimensions == old(self).dimensions,
            final(self).base == old(self).base,
            final(self).tile_size == old(self).tile_size,
            forall|i: int, j: int|
                0 <= i < MAP_WIDTH && 0 <= j < MAP_HEIGHT ==> final(self).tile_at(i, j) == (
                if i == x && j == y {
                    t
                } else {
                    old(self).tile_at(i, j)
                }),
    {
        let mut row = self.tiles.remove(y);
        row.set(x, t);
        self.tiles.insert(y, row);
        proof {
            let t0 = old(self).tiles@;
            assert(forall|j: int| 0 <= j < y ==> #[trigger] self.tiles@[j] == t0[j]);
            assert(forall|j: int| y < j < t0.len() ==> #[trigger] self.tiles@[j] == t0[j]);
            assert(self.tiles@[y as int]@ == t0[y as int]@.update(x as int, t));
        }
    }
}

/// A full-width row of border wall.
fn border_row() -> (row: Vec<Tile>)
    ensures
        row@.len() == MAP_WIDTH,
        forall|x: int| 0 <= x < MAP_WIDTH ==> row@[x] == Tile::Border,
{
    let mut row: Vec<Tile> = Vec::new();
    let mut x: usize = 0;
    while x < MAP_WIDTH
        invariant
            x <= MAP_WIDTH,
            row@.len() == x,
            forall|i: int| 0 <= i < x ==> row@[i] == Tile::Border,
        decreases MAP_WIDTH - x,
    {
        row.push(Tile::Border);
        x = x + 1;
    }
    row
}

/// A mineral row: border at both ends, a fresh uniform mineral roll in every
/// interior column.
fn mineral_row() -> (row: Vec<Tile>)
    ensures
        row@.len() == MAP_WIDTH,
        row@[0] == Tile::Border,
        row@[MAP_WIDTH - 1] == Tile::Border,
        forall|x: int| 0 < x < MAP_WIDTH - 1 ==> spec_mineral(#[trigger] row@[x]),
{
    let mut row: Vec<Tile> = Vec::new();
    row.push(Tile::Border);
    let mut x: usize = 1;
    while x < MAP_WIDTH - 1
        invariant
            1 <= x <= MAP_WIDTH - 1,
            row@.len() == x,
            row@[0] == Tile::Border,
            forall|i: int| 0 < i < x ==> spec_mineral(#[trigger] row@[i]),
        decreases MAP_WIDTH - x,
    {
        let roll = crate::rng::random_in_range(0, 100);
        row.push(Tile::from_roll(roll));
        x = x + 1;
    }
    row.push(Tile::Border);
    row
}

/// A base row: border at both ends, the two base tiles in the middle,
/// background elsewhere.
fn base_row() -> (row: Vec<Tile>)
    ensures
        row@.len() == MAP_WIDTH,
        forall|x: int|
            0 <= x < MAP_WIDTH ==> #[trigger] row@[x] == (if x == 0 || x == MAP_WIDTH - 1 {
                Tile::Border
            } else if x == BASE_COL_LEFT || x == BASE_COL_RIGHT {
                Tile::Base
            } else {
                Tile::Background
            }),
{
    let mut row: Vec<Tile> = Vec::new();
    row.push(Tile::Border);
    let mut x: usize = 1;
    while x < BASE_COL_LEFT
        invariant
            1 <= x <= BASE_COL_LEFT,
            row@.len() == x,
            row@[0] == Tile::Border,
            forall|i: int| 0 < i < x ==> #[trigger] row@[i] == Tile::Background,
        decreases BASE_COL_LEFT - x,
    {
        row.push(Tile::Background);
        x = x + 1;
    }
    row.push(Tile::Base);
    row.push(Tile::Base);
    let mut x: usize = BASE_COL_RIGHT + 1;
    while x < MAP_WIDTH - 1
        invariant
            BASE_COL_RIGHT + 1 <= x <= MAP_WIDTH - 1,
            row@.len() == x,
            row@[0] == Tile::Border,
            row@[BASE_COL_LEFT as int] == Tile::Base,
            row@[BASE_COL_RIGHT as int] == Tile::Base,
            forall|i: int|
                0 < i < x && i != BASE_COL_LEFT && i != BASE_COL_RIGHT ==> #[trigger] row@[i]
                    == Tile::Background,
        decreases MAP_WIDTH - x,
    {
        row.push(Tile::Background);
        x = x + 1;
    }
    row.push(Tile::Border);
    row
}

/// A sky row: border at both ends, open background between them.
fn sky_row() -> (row: Vec<Tile>)
    ensures
        row@.len() == MAP_WIDTH,
        row@[0] == Tile::Border,
        row@[MAP_WIDTH - 1] == Tile::Border,
        forall|x: int| 0 < x < MAP_WIDTH - 1 ==> #[trigger] row@[x] == Tile::Background,
{
    let mut row: Vec<Tile> = Vec::new();
    row.push(Tile::Border);
    let mut x: usize = 1;
    while x < MAP_WIDTH - 1
        invariant
            1 <= x <= MAP_WIDTH - 1,
            row@.len() == x,
            row@[0] == Tile::Border,
            forall|i: int| 0 < i < x ==> #[trigger] row@[i] == Tile::Background,
        decreases MAP_WIDTH - x,
    {
        row.push(Tile::Background);
        x = x + 1;
    }
    row.push(Tile::Border);
    row
}

/// Build a fresh world: a border wall all the way around, minerals buried
/// below the base rows, six tank upgrades and ten pieces of waste scattered
/// uniformly through the mineral region (one upgrade pinned near its top),
/// and open sky above the base.
pub fn generate_map() -> (m: TileMap)
    ensures
        m.generated(),
        m.base == (BASE_X, BASE_Y),
        m.tile_size == TILE_SIZE,
{
    let mut tiles: Vec<Vec<Tile>> = Vec::new();
    tiles.push(border_row());
    let mut y: usize = 1;
    while y <= MINERAL_TOP
        invariant
            1 <= y <= MINERAL_TOP + 1,
            tiles@.len() == y,
            forall|j: int| 0 <= j < y ==> (#[trigger] tiles@[j])@.len() == MAP_WIDTH,
            forall|j: int, i: int|
                0 <= j < y && 0 <= i < MAP_WIDTH ==> spec_cell_ok(
                    #[trigger] tiles@[j]@[i],
                    i,
                    j,
                ),
        decreases MINERAL_TOP + 1 - y,
    {
        tiles.push(mineral_row());
        y = y + 1;
    }
    tiles.push(base_row());
    tiles.push(base_row());
    let mut y: usize = BASE_ROW_HIGH + 1;
    while y < MAP_HEIGHT - 1
        invariant
            BASE_ROW_HIGH + 1 <= y <= MAP_HEIGHT - 1,
            tiles@.len() == y,
            forall|j: int| 0 <= j < y ==> (#[trigger] tiles@[j])@.len() == MAP_WIDTH,
            forall|j: int, i: int|
                0 <= j < y && 0 <= i < MAP_WIDTH ==> spec_cell_ok(
                    #[trigger] tiles@[j]@[i],
                    i,
                    j,
                ),
        decreases MAP_HEIGHT - y,
    {
        tiles.push(sky_row());
        y = y + 1;
    }
    tiles.push(border_row());
    let mut m = TileMap {
        dimensions: Dimensions { x: MAP_WIDTH, y: MAP_HEIGHT },
        tiles,
        base: (BASE_X, BASE_Y),
        tile_size: TILE_SIZE,
    };
    assert(m.generated());
    let mut i: usize = 0;
    while i < 5
        invariant
            m.generated(),
            m.base == (BASE_X, BASE_Y),
            m.tile_size == TILE_SIZE,
        decreases 5 - i,
    {
        let x = crate::rng::random_in_range(1, MAP_WIDTH - 1);
        let y = crate::rng::random_in_range(1, MINERAL_TOP);
        m.set_tile(x, y, Tile::TankUpgrade);
        i = i + 1;
    }
    let x = crate::rng::random_in_range(1, MAP_WIDTH - 1);
    m.set_tile(x, MAP_HEIGHT - 15, Tile::TankUpgrade);
    let mut i: usize = 0;
    while i < 10
        invariant
            m.generated(),
            m.base == (BASE_X, BASE_Y),
            m.tile_size == TILE_SIZE,
        decreases 10 - i,
    {
        let x = crate::rng::random_in_range(1, MAP_WIDTH - 1);
        let y = crate::rng::random_in_range(1, MINERAL_TOP);
        m.set_tile(x, y, Tile::Waste);
        i = i + 1;
    }
    m
}

/// What play may leave at `(x, y)`: like a fresh map, except that mined
/// cells of the mineral region have become background.
pub open spec fn spec_playable_cell(t: Tile, x: int, y: int) -> bool {
    if y == 0 || y == MAP_HEIGHT - 1 || x == 0 || x == MAP_WIDTH - 1 {
        t == Tile::Border
    } else if y <= MINERAL_TOP {
        spec_mineral(t) || t == Tile::Background
    } else if y <= BASE_ROW_HIGH {
        if x == BASE_COL_LEFT || x == BASE_COL_RIGHT {
            t == Tile::Base
        } else {
            t == Tile::Background
        }
    } else {
        t == Tile::Background
    }
}

/// Every fresh map stays playable however much of it is mined away: the
/// border wall, the base and the sky never change, and the mineral region
/// only ever loses tiles to background.
pub proof fn lemma_generated_playable(m: TileMap)
    requires
        m.generated(),
    ensures
        m.playable(),
{
}

/// Nothing in the world above the mineral region collides, so the digger
/// can always fly back to its base.
pub proof fn lemma_home_region_open(m: TileMap, x: int, y: int)
    requires
        m.playable(),
        0 < x < MAP_WIDTH - 1,
        MINERAL_TOP < y < MAP_HEIGHT - 1,
    ensures
        !spec_collides(m.tile_at(x, y)),
{
    assert(spec_playable_cell(m.tile_at(x, y), x, y));
}

/// Only the mineral region ever holds a minable tile, so mining can never
/// breach the border wall or the base.
pub proof fn lemma_minable_in_mineral_region(m: TileMap, x: int, y: int)
    requires
        m.playable(),
        0 <= x < MAP_WIDTH,
        0 <= y < MAP_HEIGHT,
        spec_mining_strength(m.tile_at(x, y)) is Some,
    ensures
        0 < x < MAP_WIDTH - 1,
        1 <= y <= MINERAL_TOP,
{
    assert(spec_playable_cell(m.tile_at(x, y), x, y));
}

} // verus!
