//! Requests to the ledger's system subsystem.

use crate::state::Pubkey;
use vstd::prelude::*;

verus! {

/// A payment of lamports from one account to another.
#[derive(Clone, Copy, Debug, PartialEq, Eq)]
pub struct LamportTransfer {
    /// Who pays.
    pub from: Pubkey,
    /// Who is paid.
    pub to: Pubkey,
    /// How much.
    pub lamports: u64,
}

/// The creation of an account.
#[derive(Clone, Copy, Debug, PartialEq, Eq)]
pub struct AccountCreation {
    /// Who funds the account.
    pub payer: Pubkey,
    /// Address of the account.
    pub new_account: Pubkey,
    /// What it is funded with.
    pub lamports: u64,
    /// Bytes laid out in it.
    pub space: u64,
    /// The subsystem that owns it.
    pub owner: Pubkey,
}

/// Requests the payment of `amount` lamports from `from` to `to`.
pub fn system_transfer(from: Pubkey, to: Pubkey, amount: u64) -> (transfer: LamportTransfer)
    ensures
        transfer == (LamportTransfer { from, to, lamports: amount }),
{
    LamportTransfer { from, to, lamports: amount }
}

/// Requests the creation of `new_account`, funded by `payer` with `lamports`,
/// `space` bytes long and owned by `owner`.
pub fn system_create_account(
    payer: Pubkey,
    new_account: Pubkey,
    lamports: u64,
    space: u64,
    owner: Pubkey,
) -> (creation: AccountCreation)
    ensures
        creation == (AccountCreation { payer, new_account, lamports, space, owner }),
{
    AccountCreation { payer, new_account, lamports, space, owner }
}

} // verus!
