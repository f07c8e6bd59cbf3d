//! The earlier of the two games: a digger mining stone and gold below an
//! open sky, with no border wall around the grid.

pub mod map;
pub mod state;
