//! A gacha pool with pity: the tier counts of a finite pool of items, the
//! state of a player's pulls from it, and the rules that decide how likely
//! the next jackpot is.
//!
//! The arithmetic on chances is floating point and lives with the
//! application; this library decides which rule applies, with which exact
//! integer inputs, and keeps the pool's bookkeeping.
pub mod chance;
pub mod config;
pub mod laws;
pub mod types;

pub use chance::Chance;
pub use config::{item_name, parse_seed, pool_from_config, Config};
pub use types::{multiplier_bits_valid, Item, Pool, PoolState};
