use vstd::prelude::*;

verus! {

use crate::cleanup::map::{
    spec_collides, spec_effect, spec_mining_strength, MiningEffect, Tile, TileMap,
};
use crate::grid::{MAP_HEIGHT, MAP_WIDTH, MILLI};

/// Marks the digger entity.
pub struct Digger;

/// Starting fuel and starting tank ceiling of a fresh digger, in thousandths.
pub const FUEL_START: u64 = 20 * MILLI;
/// Mining power of the digger, in thousandths of work per second.
pub const MINING_STRENGTH_START: u64 = 10 * MILLI;
/// Fuel burnt per second, in thousandths.
pub const FUEL_RATE: u64 = MILLI / 2;
/// Horizontal driving speed, in thousandths of a pixel per second.
pub const DRIVE_SPEED: u64 = 200 * MILLI;
/// Greatest downward speed, in thousandths of a pixel per second.
pub const FALLING_RATE: i64 = 500_000;
/// Greatest upward speed, in thousandths of a pixel per second.
pub const FLYING_RATE: i64 = 300_000;

/// `a + b`, stopping at the greatest representable value.
pub open spec fn spec_sat_add(a: u64, b: u64) -> u64 {
    if a + b <= u64::MAX {
        (a + b) as u64
    } else {
        u64::MAX
    }
}

/// `w + 1`, stopping at the greatest representable value.
pub open spec fn spec_inc(w: usize) -> usize {
    if w < usize::MAX {
        (w + 1) as usize
    } else {
        w
    }
}

fn sat_add(a: u64, b: u64) -> (r: u64)
    ensures
        r == spec_sat_add(a, b),
{
    if u64::MAX - a < b {
        u64::MAX
    } else {
        a + b
    }
}

/// The digger's whole record: progress counters, tank state, the cell being
/// mined, and the vertical motion state.
pub struct DiggerState {
    pub waste: usize,
    pub dead: bool,
    pub money: u64,
    pub fuel: u64,
    pub fuel_max: u64,
    pub mining_strength: u64,
    pub mining_target: Option<(usize, usize)>,
    pub mining: u64,
    pub falling: bool,
    pub falling_speed: i64,
}

impl DiggerState {
    /// Fuel never exceeds the tank, the vertical speed stays within the
    /// terminal rates, and a mining target always names a grid cell.
    pub open spec fn wf(self) -> bool {
        &&& self.fuel <= self.fuel_max
        &&& -FALLING_RATE <= self.falling_speed <= FLYING_RATE
        &&& match self.mining_target {
            Some((x, y)) => x < MAP_WIDTH && y < MAP_HEIGHT,
            None => true,
        }
    }

    /// The record a fresh digger starts from.
    pub open spec fn spec_start() -> DiggerState {
        DiggerState {
            waste: 0,
            dead: false,
            money: 0,
            fuel: FUEL_START,
            fuel_max: FUEL_START,
            mining_strength: MINING_STRENGTH_START,
            mining_target: None,
            mining: 0,
            falling: false,
            falling_speed: 0,
        }
    }
}

impl Default for DiggerState {
    fn default() -> (r: DiggerState)
        ensures
            r == DiggerState::spec_start(),
            r.wf(),
    {
        DiggerState {
            waste: 0,
            dead: false,
            money: 0,
            fuel: FUEL_START,
            fuel_max: FUEL_START,
            mining_strength: MINING_STRENGTH_START,
            mining_target: None,
            mining: 0,
            falling: false,
            falling_speed: 0,
        }
    }
}

/// Burn `amount` of fuel, never below empty. The frame layer hands in
/// `FUEL_RATE` scaled by the elapsed time.
pub fn loose_fuel(state: &mut DiggerState, amount: u64)
    requires
        old(state).wf(),
    ensures
        final(state).wf(),
        *final(state) == (DiggerState {
            fuel: if old(state).fuel >= amount {
                (old(state).fuel - amount) as u64
            } else {
                0
            },
            ..*old(state)
        }),
{
    if state.fuel >= amount {
        state.fuel = state.fuel - amount;
    } else {
        state.fuel = 0;
    }
}

/// The vertical speed held within the terminal falling and flying rates.
pub open spec fn spec_clamp_speed(v: int) -> int {
    if v < -FALLING_RATE {
        -FALLING_RATE as int
    } else if v > FLYING_RATE {
        FLYING_RATE as int
    } else {
        v
    }
}

/// Recompute whether the digger hangs free, then advance its vertical
/// speed: thrust upward while flying, gravity while falling, rest otherwise,
/// always held within the terminal rates. `slot_next_y` is the row just
/// below the digger's lower border; `slot_x_left` and `slot_x_right` the
/// columns of its two lower corners; the two deltas are the flying and
/// falling rates scaled by the elapsed time.
pub fn update_fall_and_fly(
    state: &mut DiggerState,
    map: &TileMap,
    slot_next_y: usize,
    slot_x_left: usize,
    slot_x_right: usize,
    flying: bool,
    fly_delta: i64,
    fall_delta: i64,
)
    requires
        old(state).wf(),
        map.wf(),
        slot_next_y < MAP_HEIGHT,
        slot_x_left < MAP_WIDTH,
        slot_x_right < MAP_WIDTH,
        0 <= fly_delta <= 100_000_000,
        0 <= fall_delta <= 100_000_000,
    ensures
        final(state).wf(),
        *final(state) == (DiggerState {
            falling: !(spec_collides(map.tile_at(slot_x_left as int, slot_next_y as int))
                || spec_collides(map.tile_at(slot_x_right as int, slot_next_y as int))),
            falling_speed: spec_clamp_speed(
                if flying {
                    old(state).falling_speed + fly_delta
                } else if !(spec_collides(map.tile_at(slot_x_left as int, slot_next_y as int))
                    || spec_collides(map.tile_at(slot_x_right as int, slot_next_y as int))) {
                    old(state).falling_speed - fall_delta
                } else {
                    0
                },
            ) as i64,
            ..*old(state)
        }),
{
    let left = map.get_tile(slot_x_left, slot_next_y);
    let right = map.get_tile(slot_x_right, slot_next_y);
    state.falling = !left.collides() && !right.collides();
    let mut speed: i64 = state.falling_speed;
    if flying {
        speed = speed + fly_delta;
    } else if state.falling {
        speed = speed - fall_delta;
    } else {
        speed = 0;
    }
    if speed < -FALLING_RATE {
        speed = -FALLING_RATE;
    } else if speed > FLYING_RATE {
        speed = FLYING_RATE;
    }
    state.falling_speed = speed;
}

/// The grid cells a frame's movement touches, all computed by the frame
/// layer from the digger's pixel position: the digger's centre cell, the
/// rows its leading vertical border lies in before and after the move, the
/// columns of its side borders, and the column its leading side border
/// reaches after the move.
pub struct MoveContext {
    pub slot_x: usize,
    pub slot_y: usize,
    pub slot_current_y: usize,
    pub slot_next_y: usize,
    pub slot_x_left: usize,
    pub slot_x_right: usize,
    pub slot_next_x: usize,
    pub moving_right: bool,
    pub mining_down: bool,
}

/// What a frame's movement decided; the frame layer applies the remaining
/// pixel arithmetic.
pub struct MoveOutcome {
    pub stood_mining: bool,
    pub vertical_blocked: bool,
    pub horizontal_blocked: bool,
}

/// The digger stands still over minable ground with the dig-down action
/// held: the frame becomes pure mining.
pub open spec fn spec_stands_mining(ctx: MoveContext, s: DiggerState, m: TileMap) -> bool {
    &&& ctx.mining_down
    &&& s.falling_speed == 0
    &&& spec_collides(m.tile_at(ctx.slot_x as int, ctx.slot_y - 1))
    &&& spec_mining_strength(m.tile_at(ctx.slot_x as int, ctx.slot_y - 1)) is Some
}

/// The vertical move carries the digger's leading border into another row.
pub open spec fn spec_vertical_crossing(ctx: MoveContext) -> bool {
    ctx.slot_current_y != ctx.slot_next_y
}

/// The row entered vertically holds a colliding tile under either corner.
pub open spec fn spec_vertical_blocked(ctx: MoveContext, m: TileMap) -> bool {
    &&& spec_vertical_crossing(ctx)
    &&& (spec_collides(m.tile_at(ctx.slot_x_left as int, ctx.slot_next_y as int))
        || spec_collides(m.tile_at(ctx.slot_x_right as int, ctx.slot_next_y as int)))
}

/// The column of the digger's leading side border.
pub open spec fn spec_leading_x(ctx: MoveContext) -> usize {
    if ctx.moving_right {
        ctx.slot_x_right
    } else {
        ctx.slot_x_left
    }
}

/// The horizontal move carries the leading side border into another column.
pub open spec fn spec_horizontal_crossing(ctx: MoveContext) -> bool {
    ctx.slot_next_x != spec_leading_x(ctx)
}

/// The column entered sideways holds a colliding tile at the digger's row.
pub open spec fn spec_horizontal_blocked(ctx: MoveContext, m: TileMap) -> bool {
    &&& spec_horizontal_crossing(ctx)
    &&& spec_collides(m.tile_at(ctx.slot_next_x as int, ctx.slot_y as int))
}

/// The tile blocking the horizontal move can be mined.
pub open spec fn spec_horizontal_mines(ctx: MoveContext, m: TileMap) -> bool {
    &&& spec_horizontal_blocked(ctx, m)
    &&& spec_mining_strength(m.tile_at(ctx.slot_next_x as int, ctx.slot_y as int)) is Some
}

/// Decide one frame of movement. Standing still over minable ground with
/// the dig-down action held turns the frame into pure mining of the tile
/// below. Otherwise a vertical crossing into colliding ground zeroes the
/// vertical speed, and a horizontal crossing into a colliding tile is
/// blocked — accumulating mining progress on it when it is minable — while
/// a frame that stays within its column drops any mining target.
/// `mining_amount` is the digger's mining power scaled by the elapsed time.
pub fn move_digger(state: &mut DiggerState, map: &TileMap, ctx: MoveContext, mining_amount: u64)
    -> (r: MoveOutcome)
    requires
        old(state).wf(),
        map.wf(),
        ctx.mining_down && old(state).falling_speed == 0 ==> 1 <= ctx.slot_y < MAP_HEIGHT
            && ctx.slot_x < MAP_WIDTH,
        spec_vertical_crossing(ctx) ==> ctx.slot_next_y < MAP_HEIGHT && ctx.slot_x_left
            < MAP_WIDTH && ctx.slot_x_right < MAP_WIDTH,
        spec_horizontal_crossing(ctx) ==> ctx.slot_y < MAP_HEIGHT && ctx.slot_next_x < MAP_WIDTH,
    ensures
        final(state).wf(),
        r.stood_mining == spec_stands_mining(ctx, *old(state), *map),
        r.stood_mining ==> *final(state) == (DiggerState {
            mining_target: Some((ctx.slot_x, (ctx.slot_y - 1) as usize)),
            mining: spec_sat_add(old(state).mining, mining_amount),
            ..*old(state)
        }),
        !r.stood_mining ==> {
            &&& r.vertical_blocked == spec_vertical_blocked(ctx, *map)
            &&& r.horizontal_blocked == spec_horizontal_blocked(ctx, *map)
            &&& final(state).falling_speed == if spec_vertical_blocked(ctx, *map) {
                0
            } else {
                old(state).falling_speed
            }
            &&& final(state).mining_target == (if spec_horizontal_crossing(ctx) {
                if spec_horizontal_mines(ctx, *map) {
                    Some((ctx.slot_next_x, ctx.slot_y))
                } else {
                    old(state).mining_target
                }
            } else {
                None
            })
            &&& final(state).mining == (if spec_horizontal_mines(ctx, *map) {
                spec_sat_add(old(state).mining, mining_amount)
            } else if !spec_horizontal_crossing(ctx) {
                0
            } else {
                old(state).mining
            })
            &&& final(state).waste == old(state).waste
            &&& final(state).dead == old(state).dead
            &&& final(state).money == old(state).money
            &&& final(state).fuel == old(state).fuel
            &&& final(state).fuel_max == old(state).fuel_max
            &&& final(state).mining_strength == old(state).mining_strength
            &&& final(state).falling == old(state).falling
        },
{
    if ctx.mining_down && state.falling_speed == 0 {
        let below = map.get_tile(ctx.slot_x, ctx.slot_y - 1);
        if below.collides() && below.mining_strength().is_some() {
            state.mining_target = Some((ctx.slot_x, ctx.slot_y - 1));
            state.mining = sat_add(state.mining, mining_amount);
            return MoveOutcome { stood_mining: true, vertical_blocked: false, horizontal_blocked: false };
        }
    }
    let mut vertical_blocked = false;
    if ctx.slot_current_y != ctx.slot_next_y {
        let left = map.get_tile(ctx.slot_x_left, ctx.slot_next_y);
        let right = map.get_tile(ctx.slot_x_right, ctx.slot_next_y);
        if left.collides() || right.collides() {
            state.falling_speed = 0;
            vertical_blocked = true;
        }
    }
    let mut horizontal_blocked = false;
    let leading = if ctx.moving_right {
        ctx.slot_x_right
    } else {
        ctx.slot_x_left
    };
    if ctx.slot_next_x != leading {
        let next = map.get_tile(ctx.slot_next_x, ctx.slot_y);
        if next.collides() {
            horizontal_blocked = true;
            if next.mining_strength().is_some() {
                state.mining_target = Some((ctx.slot_next_x, ctx.slot_y));
                state.mining = sat_add(state.mining, mining_amount);
            }
        }
    } else {
        state.mining = 0;
        state.mining_target = None;
    }
    MoveOutcome { stood_mining: false, vertical_blocked, horizontal_blocked }
}

/// What resolving a frame of mining reported back: whether the target tile
/// gave way, and the reward it held.
pub struct DigOutcome {
    pub mined: bool,
    pub effect: Option<MiningEffect>,
}

/// The digger's record with a mining reward applied: money for minerals, a
/// larger and fuller tank for a tank upgrade, one more piece of waste
/// collected.
pub open spec fn spec_apply_effect(s: DiggerState, e: Option<MiningEffect>) -> DiggerState {
    match e {
        Some(MiningEffect::Money(v)) => DiggerState { money: spec_sat_add(s.money, v), ..s },
        Some(MiningEffect::TankUpgrade(v)) => DiggerState {
            fuel: spec_sat_add(s.fuel, v),
            fuel_max: spec_sat_add(s.fuel_max, v),
            ..s
        },
        Some(MiningEffect::CollectedWaste) => DiggerState { waste: spec_inc(s.waste), ..s },
        None => s,
    }
}

/// Accumulated mining progress suffices to remove the tile.
pub open spec fn spec_mined(s: DiggerState, t: Tile) -> bool {
    match spec_mining_strength(t) {
        Some(w) => s.mining >= w,
        None => false,
    }
}

/// Resolve the mining target: once accumulated progress reaches the tile's
/// strength, the tile becomes background, its reward is applied, and the
/// target and progress reset. With no target, or progress still short,
/// nothing changes.
pub fn dig(state: &mut DiggerState, map: &mut TileMap) -> (r: DigOutcome)
    requires
        old(state).wf(),
        old(map).wf(),
        old(state).mining_target matches Some((x, y)) ==> spec_mining_strength(
            old(map).tile_at(x as int, y as int),
        ) is Some,
    ensures
        final(state).wf(),
        final(map).wf(),
        old(map).playable() ==> final(map).playable(),
        old(state).mining_target is None ==> *final(state) == *old(state) && *final(map) == *old(
            map,
        ) && !r.mined && r.effect is None,
        old(state).mining_target matches Some((x, y)) && !spec_mined(
            *old(state),
            old(map).tile_at(x as int, y as int),
        ) ==> *final(state) == *old(state) && *final(map) == *old(map) && !r.mined
            && r.effect is None,
        old(state).mining_target matches Some((x, y)) ==> spec_mined(
            *old(state),
            old(map).tile_at(x as int, y as int),
        ) ==> {
            &&& r.mined
            &&& r.effect == spec_effect(old(map).tile_at(x as int, y as int))
            &&& *final(state) == (DiggerState {
                mining_target: None,
                mining: 0,
                ..spec_apply_effect(*old(state), spec_effect(old(map).tile_at(x as int, y as int)))
            })
            &&& final(map).dimensions == old(map).dimensions
            &&& final(map).base == old(map).base
            &&& final(map).tile_size == old(map).tile_size
            &&& forall|i: int, j: int|
                0 <= i < MAP_WIDTH && 0 <= j < MAP_HEIGHT ==> final(map).tile_at(i, j) == (if i
                    == x && j == y {
                    Tile::Background
                } else {
                    old(map).tile_at(i, j)
                })
        },
{
    match state.mining_target {
        None => DigOutcome { mined: false, effect: None },
        Some((x, y)) => {
            let t = map.get_tile(x, y);
            let strength = match t.mining_strength() {
                Some(w) => w,
                // the precondition makes the target minable
                None => u64::MAX,
            };
            if state.mining >= strength {
                let e = t.effect();
                match e {
                    Some(MiningEffect::Money(v)) => {
                        state.money = sat_add(state.money, v);
                    },
                    Some(MiningEffect::TankUpgrade(v)) => {
                        state.fuel = sat_add(state.fuel, v);
                        state.fuel_max = sat_add(state.fuel_max, v);
                    },
                    Some(MiningEffect::CollectedWaste) => {
                        if state.waste < usize::MAX {
                            state.waste = state.waste + 1;
                        }
                    },
                    None => {},
                }
                map.set_tile(x, y, Tile::Background);
                state.mining_target = None;
                state.mining = 0;
                proof {
                    if old(map).playable() {
                        crate::cleanup::map::lemma_minable_in_mineral_region(
                            *old(map),
                            x as int,
                            y as int,
                        );
                        assert forall|i: int, j: int|
                            0 <= i < MAP_WIDTH && 0 <= j < MAP_HEIGHT implies
                            crate::cleanup::map::spec_playable_cell(
                                map.tile_at(i, j),
                                i,
                                j,
                            ) by {
                            if !(i == x && j == y) {
                                assert(crate::cleanup::map::spec_playable_cell(
                                    old(map).tile_at(i, j),
                                    i,
                                    j,
                                ));
                            }
                        }
                    }
                }
                DigOutcome { mined: true, effect: e }
            } else {
                DigOutcome { mined: false, effect: None }
            }
        },
    }
}

} // verus!
