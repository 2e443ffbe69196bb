//! Bond-collateral accounting engine.
//!
//! A bond locks principal into a validator's stake and issues a fungible claim
//! token against it. This crate holds the decisions of that engine: valuation,
//! fees, the creation and redemption workflows and the reserve rebalancing
//! state machine. Every function works on plain snapshots of ledger state and
//! answers with the amounts that the caller then moves through the staking and
//! token subsystems.

pub mod chat;
pub mod error;
pub mod instructions;
pub mod program;
pub mod state;
pub mod utils;
