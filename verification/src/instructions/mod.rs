//! The operations of the engine, one module each.

pub mod admin_withdraw;
pub mod counter_party_redeem;
pub mod create_bond;
pub mod initialize;
pub mod redeem_lamports;
pub mod redeem_stake;
pub mod update_bond_reserves;
