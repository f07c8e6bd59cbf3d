use vstd::prelude::*;

verus! {

use crate::cleanup::digger::DiggerState;

/// Pieces of waste that end the game in victory.
pub const WASTE_GOAL: usize = 10;

/// Decide victory: a digger that is still in play and has collected every
/// piece of waste is retired — the game ends, any mining stops — and the
/// victory screen is owed. Nothing changes otherwise.
pub fn won(state: &mut DiggerState) -> (r: bool)
    requires
        old(state).wf(),
    ensures
        final(state).wf(),
        r == (!old(state).dead && old(state).waste == WASTE_GOAL),
        r ==> *final(state) == (DiggerState {
            dead: true,
            mining_target: None,
            ..*old(state)
        }),
        !r ==> *final(state) == *old(state),
{
    if state.dead {
        return false;
    }
    if state.waste == WASTE_GOAL {
        state.mining_target = None;
        state.dead = true;
        true
    } else {
        false
    }
}

/// Decide defeat: a digger that is still in play with a dry tank is
/// retired, and the retry button is owed. Nothing changes otherwise.
pub fn retry_system(state: &mut DiggerState) -> (r: bool)
    requires
        old(state).wf(),
    ensures
        final(state).wf(),
        r == (!old(state).dead && old(state).fuel == 0),
        r ==> *final(state) == (DiggerState { dead: true, ..*old(state) }),
        !r ==> *final(state) == *old(state),
{
    if state.dead {
        return false;
    }
    if state.fuel == 0 {
        state.dead = true;
        true
    } else {
        false
    }
}

} // verus!
