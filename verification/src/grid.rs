use vstd::prelude::*;

verus! {

/// One thousandth of a gameplay unit: money, fuel, mining progress and
/// speeds are all held in these integer sub-units.
pub const MILLI: u64 = 1000;

/// Width of the world grid, in tiles.
pub const MAP_WIDTH: usize = 50;
/// Height of the world grid, in tiles; row 0 is the bottom of the world.
pub const MAP_HEIGHT: usize = 100;
/// Edge length of a tile, in pixels.
pub const TILE_SIZE: u32 = 32;
/// Pixel position of the base, centred between the two base tiles.
pub const BASE_X: u32 = 784;
/// Pixel position of the base, at the height of the lower base row.
pub const BASE_Y: u32 = 2816;
/// Highest row that holds buried minerals.
pub const MINERAL_TOP: usize = 87;
/// Lower of the two rows that hold the base.
pub const BASE_ROW_LOW: usize = 88;
/// Upper of the two rows that hold the base.
pub const BASE_ROW_HIGH: usize = 89;
/// Left of the two columns that hold the base.
pub const BASE_COL_LEFT: usize = 24;
/// Right of the two columns that hold the base.
pub const BASE_COL_RIGHT: usize = 25;

} // verus!
