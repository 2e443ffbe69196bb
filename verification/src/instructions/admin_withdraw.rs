//! Admin withdrawal: the admin takes an amount of its choosing out of the
//! global pool.

use crate::state::{Config, Pubkey};
use crate::utils::system::{system_transfer, LamportTransfer};
use vstd::prelude::*;

verus! {

/// What an admin withdrawal reads from the ledger.
#[derive(Clone, Copy, Debug, PartialEq, Eq)]
pub struct AdminWithdraw {
    /// The deployment's settings.
    pub config: Config,
    /// Who signed the withdrawal.
    pub admin: Pubkey,
    /// Address of the global pool.
    pub gcp: Pubkey,
}

/// What an admin withdrawal moves.
#[derive(Clone, Copy, Debug, PartialEq, Eq)]
pub struct AdminWithdrawal {
    /// Paid from the global pool to the signer.
    pub transfer: LamportTransfer,
    /// The discriminator with which the global pool signs.
    pub gcp_bump: u8,
}

impl AdminWithdraw {
    /// The signer is the admin that the ledger records.
    pub open spec fn constraints(&self) -> bool {
        self.admin == self.config.admin
    }

    /// Evaluates the authorization predicate.
    pub fn constraints_hold(&self) -> (hold: bool)
        ensures
            hold == self.constraints(),
    {
        self.admin.equals(&self.config.admin)
    }
}

/// What an admin withdrawal decides.
pub open spec fn admin_withdrawal(ctx: AdminWithdraw, amount: u64) -> AdminWithdrawal {
    AdminWithdrawal {
        transfer: LamportTransfer { from: ctx.gcp, to: ctx.admin, lamports: amount },
        gcp_bump: ctx.config.gcp_bump,
    }
}

/// Pays `amount` from the global pool to the signer. Nothing but the signer's
/// identity is checked, and that before the handler runs.
pub fn handler(ctx: &AdminWithdraw, amount: u64) -> (withdrawn: AdminWithdrawal)
    ensures
        withdrawn == admin_withdrawal(*ctx, amount),
{
    AdminWithdrawal {
        transfer: system_transfer(ctx.gcp, ctx.admin, amount),
        gcp_bump: ctx.config.gcp_bump,
    }
}

} // verus!
