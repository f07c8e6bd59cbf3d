use vstd::prelude::*;

verus! {

use crate::cleanup::digger::DiggerState;

/// How near the digger's centre must be to the base, in thousandths of a
/// pixel: one tile.
pub const BASE_RANGE: i64 = 32_000;

/// Greatest centre offset, in thousandths of a pixel, that the proximity
/// test accepts; the world is far smaller.
pub const OFFSET_BOUND: i64 = 4_000_000;

/// Whether the digger currently stands close enough to its base to refuel.
pub struct Base {
    pub active: bool,
}

/// Refresh the proximity flag from the digger's offset to the base, in
/// thousandths of a pixel: active within one tile's distance, compared on
/// squared lengths so the test is exact in integers.
pub fn check_player_position(base: &mut Base, dx: i64, dy: i64)
    requires
        -OFFSET_BOUND <= dx <= OFFSET_BOUND,
        -OFFSET_BOUND <= dy <= OFFSET_BOUND,
    ensures
        final(base).active == (dx * dx + dy * dy <= BASE_RANGE * BASE_RANGE),
{
    proof {
        assert(dx * dx <= OFFSET_BOUND * OFFSET_BOUND && dx * dx >= 0) by (nonlinear_arith)
            requires
                -OFFSET_BOUND <= dx <= OFFSET_BOUND,
        ;
        assert(dy * dy <= OFFSET_BOUND * OFFSET_BOUND && dy * dy >= 0) by (nonlinear_arith)
            requires
                -OFFSET_BOUND <= dy <= OFFSET_BOUND,
        ;
    }
    let dx2 = dx * dx;
    let dy2 = dy * dy;
    base.active = dx2 + dy2 <= BASE_RANGE * BASE_RANGE;
}

/// While the digger stands at the base, its tank refills outright.
pub fn fuel_up(base: &Base, state: &mut DiggerState)
    requires
        old(state).wf(),
    ensures
        final(state).wf(),
        *final(state) == (DiggerState {
            fuel: if base.active {
                old(state).fuel_max
            } else {
                old(state).fuel
            },
            ..*old(state)
        }),
{
    if base.active {
        state.fuel = state.fuel_max;
    }
}

} // verus!
