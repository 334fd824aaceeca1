//! The instruction handlers and the dispatch that selects one.

pub mod arith;
pub mod control;
pub mod executor;
pub mod helper;
pub mod load;
pub mod reserved;
pub mod store;
pub mod traps;
