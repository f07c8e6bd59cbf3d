//! The later of the two games: a digger that must collect every piece of
//! buried waste, refuelling at its base, inside a border-walled tile grid.

pub mod actions;
pub mod base;
pub mod digger;
pub mod map;
pub mod state;
pub mod ui;
