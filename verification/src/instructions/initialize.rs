//! Initialization of a deployment: the admin is recorded and the global pool
//! receives its seed.

use crate::state::{Config, Pubkey};
use crate::utils::system::{system_transfer, LamportTransfer};
use vstd::prelude::*;

verus! {

/// What initialization reads from the ledger.
#[derive(Clone, Copy, Debug, PartialEq, Eq)]
pub struct Initialize {
    /// Who pays the seed.
    pub initializer: Pubkey,
    /// Address of the global pool.
    pub gcp: Pubkey,
    /// Derivation discriminator of the global pool's address.
    pub gcp_bump: u8,
}

/// What an initialization writes and moves.
#[derive(Clone, Copy, Debug, PartialEq, Eq)]
pub struct Initialization {
    /// The deployment's settings as recorded.
    pub config: Config,
    /// Paid by the initializer into the global pool.
    pub seed: LamportTransfer,
}

/// What initialization decides.
pub open spec fn initialization(ctx: Initialize, admin: Pubkey, amount: u64) -> Initialization {
    Initialization {
        config: Config { admin, gcp_bump: ctx.gcp_bump },
        seed: LamportTransfer { from: ctx.initializer, to: ctx.gcp, lamports: amount },
    }
}

/// Records `admin` as the deployment's admin, together with the global pool's
/// discriminator, and seeds the global pool with `amount`.
pub fn handler(ctx: &Initialize, admin: Pubkey, amount: u64) -> (initialized: Initialization)
    ensures
        initialized == initialization(*ctx, admin, amount),
{
    Initialization {
        config: Config { admin, gcp_bump: ctx.gcp_bump },
        seed: system_transfer(ctx.initializer, ctx.gcp, amount),
    }
}

} // verus!
