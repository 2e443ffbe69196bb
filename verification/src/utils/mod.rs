//! Valuation, the reading of the staking subsystem's answers, and the
//! requests that the engine puts to the system, token and staking subsystems.

pub mod bond;
pub mod stake;
pub mod system;
pub mod token;
