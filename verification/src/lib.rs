//! Verified core of the fishing game backend: Herb's daily quest, the fish
//! catalog, inventory updates, trades, missions, stats and accounts.
//!
//! The database, the HTTP endpoints and the clock stay outside; the functions
//! here take what was read as plain values (ids as `u128`, times as Unix
//! seconds) and decide what is answered and what is written.

pub mod domain;
pub mod fish_catalog;
pub mod herb_quest;
pub mod ids;
pub mod inventory;
pub mod missions;
pub mod scheduler;
pub mod stats;
pub mod trading;
pub mod user;
