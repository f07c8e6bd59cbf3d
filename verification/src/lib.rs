//! Game rules for a pair of 2D mining platformers that run as plugins of an
//! entity-component-system engine. The engine owns rendering, input polling
//! and the frame loop; this crate holds the parts worth stating exactly: the
//! tile grids and their generation, tile collision, the digger's per-frame
//! movement and mining decisions, and the fuel, money and waste bookkeeping.
//!
//! Continuous quantities (fuel, money, mining progress, speeds) are held in
//! integer thousandths of a unit, so that per-frame bookkeeping is exact; the
//! frame layer converts elapsed time into these units before calling in.

pub mod cleanup;
pub mod gold_digger;
pub mod grid;
pub mod paths;
mod rng;
