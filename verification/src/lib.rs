//! A registry and marketplace for uniquely identified collectible apes.
//!
//! The state holds the apes by id, the bounded list of ids that each account
//! owns, and a counter of the apes minted so far. Every operation is stated
//! over a mathematical model of that state and keeps its consistency.

pub mod genesis;
pub mod identity;
pub mod laws;
pub mod model;
pub mod ownership;
pub mod pallet;
pub mod registry;
pub mod types;
