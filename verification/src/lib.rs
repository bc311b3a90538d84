//! Spending policies for an on-chain treasury, verified with Verus.
//!
//! The library answers one question: may `amount` of `asset` flow to
//! `recipient` right now? A policy holds the digest of a configuration that is
//! managed elsewhere and a few scalar gates; around it stand recipient, merchant,
//! category and asset lists, per-asset allowances and a composite rule tree.
//!
//! Everything the contract reads from and writes to the chain is held in an
//! [`env::Env`]: the contract's own ledger entries, the ledger time, the
//! addresses that signed the running invocation, and the list of actions the
//! host has to carry out once the call returns.

pub mod allowances;
pub mod assets;
pub mod checks;
pub mod composite;
pub mod env;
pub mod errors;
pub mod events;
pub mod laws;
pub mod policies;
pub mod restrictions;
pub mod rule_tree;
pub mod rules;
pub mod table;
pub mod transfer;
pub mod upgrade;
pub mod values;
