//! Verified core of the membreak memory tool: the offset table and its
//! refresh protocol, the address arithmetic behind every game-memory access,
//! and the integer decisions of the per-tick update.

pub mod cheat;
pub mod sdk;
