//! Lamport redemption: a holder's claim is settled in cash from the global
//! pool, less the fee.

use crate::error::BondError;
use crate::instructions::create_bond::{calculate_fee, fee, fee_fits, lemma_fee_is_ceiling};
use crate::state::{Bond, Mint, Pubkey, TokenAccount};
use crate::utils::bond::{calculate_user_share, user_share, user_share_fits, CollateralPools};
use crate::utils::system::{system_transfer, LamportTransfer};
use crate::utils::token::{token_burn, TokenBurn};
use vstd::prelude::*;

verus! {

/// What lamport redemption reads from the ledger.
#[derive(Clone, Copy, Debug, PartialEq, Eq)]
pub struct RedeemLamports {
    /// The ledger clock.
    pub now: i64,
    /// The holder who redeems.
    pub user: Pubkey,
    /// The bond redeemed against.
    pub bond: Bond,
    /// The claim token's issuance record.
    pub corcoin_mint: Mint,
    /// The holder's claim tokens.
    pub user_corcoin_account: TokenAccount,
    /// Address of the active stake account handed in.
    pub stake_account: Pubkey,
    /// The balances behind the bond.
    pub pools: CollateralPools,
    /// Address of the global pool, which pays the holder.
    pub gcp: Pubkey,
    /// Balance of the global pool.
    pub gcp_lamports: u64,
}

/// What a lamport redemption moves.
#[derive(Clone, Copy, Debug, PartialEq, Eq)]
pub struct LamportRedemption {
    /// The claim tokens, burned from the holder's token account.
    pub burn: TokenBurn,
    /// What the holder's token account holds afterwards.
    pub corcoin_balance_after: u64,
    /// The claim's share of the bond's value.
    pub user_share: u64,
    /// The fee kept by the global pool.
    pub fee_amount: u64,
    /// The share less the fee, paid from the global pool to the holder.
    pub payout: LamportTransfer,
}

impl RedeemLamports {
    /// The accounts are the ones that the bond records: the holder is the
    /// bond's authority and owns the token account, and the issuance record and
    /// the stake account are the bond's.
    pub open spec fn constraints(&self) -> bool {
        &&& self.bond.authority == self.user
        &&& self.corcoin_mint.key == self.bond.corcoin_mint
        &&& self.user_corcoin_account.owner == self.user
        &&& self.user_corcoin_account.mint == self.corcoin_mint.key
        &&& self.stake_account == self.bond.stake_account
    }

    /// Evaluates the authorization predicate.
    pub fn constraints_hold(&self) -> (hold: bool)
        ensures
            hold == self.constraints(),
    {
        self.bond.authority.equals(&self.user) && self.corcoin_mint.key.equals(
            &self.bond.corcoin_mint,
        ) && self.user_corcoin_account.owner.equals(&self.user)
            && self.user_corcoin_account.mint.equals(&self.corcoin_mint.key)
            && self.stake_account.equals(&self.bond.stake_account)
    }
}

/// What every holder's redemption checks first: the bond has matured, and the
/// claim is positive and within the holder's balance.
pub open spec fn redemption_conditions(
    bond: Bond,
    now: i64,
    corcoin_balance: u64,
    corcoin_amount: u64,
) -> Result<(), BondError> {
    if now < bond.maturity_timestamp {
        Err(BondError::BondNotMatured)
    } else if corcoin_balance == 0 || corcoin_amount == 0 || corcoin_amount > corcoin_balance {
        Err(BondError::InsufficientTokens)
    } else {
        Ok(())
    }
}

/// A share less the fee on it.
pub open spec fn amount_after_fee(share: u64) -> Result<u64, BondError> {
    if fee_fits(share) {
        Ok((share - fee(share as int)) as u64)
    } else {
        Err(BondError::MathOverflow)
    }
}

/// The burning of a holder's claim.
pub open spec fn claim_burn(ctx: RedeemLamports, corcoin_amount: u64) -> TokenBurn {
    TokenBurn {
        mint: ctx.corcoin_mint.key,
        from: ctx.user_corcoin_account.key,
        authority: ctx.user,
        amount: corcoin_amount,
    }
}

/// The payment to the holder.
pub open spec fn payout_to_user(ctx: RedeemLamports, amount: u64) -> LamportTransfer {
    LamportTransfer { from: ctx.gcp, to: ctx.user, lamports: amount }
}

/// What lamport redemption decides for a claim of `corcoin_amount`.
pub open spec fn lamport_redemption(ctx: RedeemLamports, corcoin_amount: u64) -> Result<
    LamportRedemption,
    BondError,
> {
    match redemption_conditions(ctx.bond, ctx.now, ctx.user_corcoin_account.amount, corcoin_amount) {
        Err(e) => Err(e),
        Ok(_) => {
            if ctx.pools.total() > u64::MAX {
                Err(BondError::MathOverflow)
            } else if !user_share_fits(
                ctx.pools.total() as u64,
                ctx.corcoin_mint.supply,
                corcoin_amount,
            ) {
                Err(BondError::MathOverflow)
            } else {
                let share = user_share(
                    ctx.pools.total() as u64,
                    ctx.corcoin_mint.supply,
                    corcoin_amount,
                ) as u64;
                match amount_after_fee(share) {
                    Err(e) => Err(e),
                    Ok(amount_to_user) => {
                        if amount_to_user > ctx.gcp_lamports {
                            Err(BondError::InsufficientTokens)
                        } else {
                            Ok(
                                LamportRedemption {
                                    burn: claim_burn(ctx, corcoin_amount),
                                    corcoin_balance_after: (ctx.user_corcoin_account.amount
                                        - corcoin_amount) as u64,
                                    user_share: share,
                                    fee_amount: fee(share as int) as u64,
                                    payout: payout_to_user(ctx, amount_to_user),
                                },
                            )
                        }
                    },
                }
            }
        },
    }
}

/// Checks what every holder's redemption requires: `BondNotMatured` before the
/// maturity, `InsufficientTokens` for an empty balance, an empty claim or a
/// claim above the balance.
pub fn validate_redemption_conditions(
    bond: &Bond,
    now: i64,
    corcoin_balance: u64,
    corcoin_amount: u64,
) -> (checked: Result<(), BondError>)
    ensures
        checked == redemption_conditions(*bond, now, corcoin_balance, corcoin_amount),
{
    if !(now >= bond.maturity_timestamp) {
        return Err(BondError::BondNotMatured);
    }
    if !(corcoin_balance > 0) {
        return Err(BondError::InsufficientTokens);
    }
    if !(corcoin_amount > 0) {
        return Err(BondError::InsufficientTokens);
    }
    if !(corcoin_amount <= corcoin_balance) {
        return Err(BondError::InsufficientTokens);
    }
    Ok(())
}

/// Deducts the fee from a share; `MathOverflow` exactly when the fee cannot be
/// computed in 64 bits.
pub fn calculate_amount_after_fee(user_share: u64) -> (amount: Result<u64, BondError>)
    ensures
        amount == amount_after_fee(user_share),
        amount matches Ok(a) ==> a == user_share - (user_share + 99) / 100,
{
    let fee_amount: u64 = match calculate_fee(user_share) {
        Ok(f) => f,
        Err(e) => {
            return Err(e);
        },
    };
    match user_share.checked_sub(fee_amount) {
        Some(amount) => Ok(amount),
        None => Err(BondError::MathOverflow),
    }
}

/// Names the burning of the claim: out of the holder's token account, signed
/// for by the holder.
pub fn burn_corcoin_tokens(ctx: &RedeemLamports, corcoin_amount: u64) -> (burn: TokenBurn)
    ensures
        burn == claim_burn(*ctx, corcoin_amount),
{
    token_burn(ctx.corcoin_mint.key, ctx.user_corcoin_account.key, ctx.user, corcoin_amount)
}

/// Names the payment to the holder: out of the global pool.
pub fn transfer_sol_to_user(ctx: &RedeemLamports, amount: u64) -> (transfer: LamportTransfer)
    ensures
        transfer == payout_to_user(*ctx, amount),
{
    system_transfer(ctx.gcp, ctx.user, amount)
}

/// Decides a lamport redemption.
///
/// After the common checks the claim's share of the bond's value is computed
/// against the outstanding supply and the fee is deducted. The claim tokens are
/// burned from the holder and the rest is paid from the global pool;
/// `InsufficientTokens` where the pool does not hold that much, with nothing
/// paid in part.
pub fn handler(ctx: &RedeemLamports, corcoin_amount: u64) -> (redeemed: Result<
    LamportRedemption,
    BondError,
>)
    ensures
        redeemed == lamport_redemption(*ctx, corcoin_amount),
        redeemed matches Ok(r) ==> {
            &&& r.burn.amount == corcoin_amount
            &&& r.corcoin_balance_after == ctx.user_corcoin_account.amount - corcoin_amount
            &&& r.user_share == user_share(
                ctx.pools.total() as u64,
                ctx.corcoin_mint.supply,
                corcoin_amount,
            )
            &&& r.payout.lamports == r.user_share - fee(r.user_share as int)
            &&& r.payout.lamports <= ctx.gcp_lamports
        },
{
    match validate_redemption_conditions(
        &ctx.bond,
        ctx.now,
        ctx.user_corcoin_account.amount,
        corcoin_amount,
    ) {
        Ok(_) => {},
        Err(e) => {
            return Err(e);
        },
    }
    let total_bond_value: u64 = match ctx.pools.total_value() {
        Ok(v) => v,
        Err(e) => {
            return Err(e);
        },
    };
    let user_share: u64 = match calculate_user_share(
        total_bond_value,
        ctx.corcoin_mint.supply,
        corcoin_amount,
    ) {
        Ok(s) => s,
        Err(e) => {
            return Err(e);
        },
    };
    let amount_to_user: u64 = match calculate_amount_after_fee(user_share) {
        Ok(a) => a,
        Err(e) => {
            return Err(e);
        },
    };
    if amount_to_user > ctx.gcp_lamports {
        return Err(BondError::InsufficientTokens);
    }
    proof {
        lemma_fee_is_ceiling(user_share as int);
    }
    Ok(
        LamportRedemption {
            burn: burn_corcoin_tokens(ctx, corcoin_amount),
            corcoin_balance_after: ctx.user_corcoin_account.amount - corcoin_amount,
            user_share,
            fee_amount: user_share - amount_to_user,
            payout: transfer_sol_to_user(ctx, amount_to_user),
        },
    )
}

} // verus!
