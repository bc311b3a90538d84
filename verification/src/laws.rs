//! The laws of the library: what holds of single calls, and what holds across calls.

pub mod allowances;
pub mod calls;
pub mod histories;
pub mod lists;
pub mod policies;
pub mod rule_trees;
pub mod transfers;
pub mod upgrades;
