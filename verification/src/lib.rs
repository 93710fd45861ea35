//! Collector core for market listings: the typed listing model, the checks
//! made on a fetched and decoded listing, the mapping of each asset to a
//! time-series point, the bookkeeping of one cycle of writes, and the
//! scheduling decisions of the collection loop.
//!
//! Floating-point quantities are carried as their IEEE-754 bit patterns
//! (`u64`), so that every value stays bit-identical from decoding to writing.

pub mod clock;
pub mod config;
pub mod cycle;
pub mod error;
pub mod fetch;
pub mod model;
pub mod point;
pub mod scheduler;
pub mod series;
