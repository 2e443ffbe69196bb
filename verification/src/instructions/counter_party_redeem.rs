//! Counterparty redemption: claim tokens that the global pool holds are settled
//! in cash from the bond's liquid reserve.

use crate::error::BondError;
use crate::state::{Bond, Mint, Pubkey, TokenAccount};
use crate::utils::bond::{calculate_user_share, user_share, user_share_fits, CollateralPools};
use crate::utils::system::{system_transfer, LamportTransfer};
use crate::utils::token::{token_burn, TokenBurn};
use vstd::prelude::*;

verus! {

/// What counterparty redemption reads from the ledger.
#[derive(Clone, Copy, Debug, PartialEq, Eq)]
pub struct CounterPartyRedeem {
    /// The ledger clock.
    pub now: i64,
    /// The bond redeemed against.
    pub bond: Bond,
    /// Address of the bond record.
    pub bond_key: Pubkey,
    /// The claim token's issuance record.
    pub corcoin_mint: Mint,
    /// Address of the global pool.
    pub gcp: Pubkey,
    /// The global pool's claim tokens.
    pub gcp_corcoin_account: TokenAccount,
    /// Address of the active stake account handed in.
    pub stake_account: Pubkey,
    /// The balances behind the bond.
    pub pools: CollateralPools,
}

/// What a counterparty redemption moves.
#[derive(Clone, Copy, Debug, PartialEq, Eq)]
pub struct CounterPartyRedemption {
    /// The claim tokens, burned from the global pool's holding.
    pub burn: TokenBurn,
    /// What the global pool's token account holds afterwards.
    pub corcoin_balance_after: u64,
    /// The share, moved from the bond record to the global pool.
    pub payout: LamportTransfer,
}

impl CounterPartyRedeem {
    /// The accounts are the ones that the bond records, and the token account
    /// is the global pool's holding of the bond's claim token.
    pub open spec fn constraints(&self) -> bool {
        &&& self.corcoin_mint.key == self.bond.corcoin_mint
        &&& self.gcp_corcoin_account.owner == self.gcp
        &&& self.gcp_corcoin_account.mint == self.corcoin_mint.key
        &&& self.stake_account == self.bond.stake_account
    }

    /// Evaluates the authorization predicate.
    pub fn constraints_hold(&self) -> (hold: bool)
        ensures
            hold == self.constraints(),
    {
        self.corcoin_mint.key.equals(&self.bond.corcoin_mint)
            && self.gcp_corcoin_account.owner.equals(&self.gcp)
            && self.gcp_corcoin_account.mint.equals(&self.corcoin_mint.key)
            && self.stake_account.equals(&self.bond.stake_account)
    }
}

/// The burning of the global pool's claim.
pub open spec fn desk_burn(ctx: CounterPartyRedeem, corcoin_amount: u64) -> TokenBurn {
    TokenBurn {
        mint: ctx.corcoin_mint.key,
        from: ctx.gcp_corcoin_account.key,
        authority: ctx.gcp,
        amount: corcoin_amount,
    }
}

/// The payment to the global pool.
pub open spec fn payout_to_gcp(ctx: CounterPartyRedeem, lamports: u64) -> LamportTransfer {
    LamportTransfer { from: ctx.bond_key, to: ctx.gcp, lamports }
}

/// What counterparty redemption decides for a claim of `corcoin_amount`.
pub open spec fn counter_party_redemption(ctx: CounterPartyRedeem, corcoin_amount: u64) -> Result<
    CounterPartyRedemption,
    BondError,
> {
    if ctx.now < ctx.bond.maturity_timestamp {
        Err(BondError::BondNotMatured)
    } else if ctx.gcp_corcoin_account.amount < corcoin_amount || corcoin_amount == 0 {
        Err(BondError::InsufficientTokens)
    } else if ctx.pools.total() > u64::MAX {
        Err(BondError::MathOverflow)
    } else if !user_share_fits(ctx.pools.total() as u64, ctx.corcoin_mint.supply, corcoin_amount) {
        Err(BondError::MathOverflow)
    } else {
        let share = user_share(ctx.pools.total() as u64, ctx.corcoin_mint.supply, corcoin_amount);
        if ctx.pools.liquid() < share {
            Err(BondError::InsufficientTokens)
        } else {
            Ok(
                CounterPartyRedemption {
                    burn: desk_burn(ctx, corcoin_amount),
                    corcoin_balance_after: (ctx.gcp_corcoin_account.amount - corcoin_amount) as u64,
                    payout: payout_to_gcp(ctx, share as u64),
                },
            )
        }
    }
}

/// Decides a counterparty redemption.
///
/// The bond must have matured (`BondNotMatured`) and the claim be positive and
/// within the global pool's holding (`InsufficientTokens`). The payout is the
/// claim's share of the bond's value, and the liquid reserve alone must cover
/// it (`InsufficientTokens`): stake is never drawn on. The tokens are burned
/// and the payout moves from the bond record to the global pool.
pub fn handler(ctx: &CounterPartyRedeem, corcoin_amount: u64) -> (redeemed: Result<
    CounterPartyRedemption,
    BondError,
>)
    ensures
        redeemed == counter_party_redemption(*ctx, corcoin_amount),
        redeemed matches Ok(r) ==> {
            &&& r.burn.amount == corcoin_amount
            &&& r.corcoin_balance_after == ctx.gcp_corcoin_account.amount - corcoin_amount
            &&& r.payout.lamports == user_share(
                ctx.pools.total() as u64,
                ctx.corcoin_mint.supply,
                corcoin_amount,
            )
            &&& r.payout.lamports <= ctx.pools.liquid()
        },
{
    if !(ctx.now >= ctx.bond.maturity_timestamp) {
        return Err(BondError::BondNotMatured);
    }
    let gcp_corcoin_balance: u64 = ctx.gcp_corcoin_account.amount;
    if !(gcp_corcoin_balance >= corcoin_amount) {
        return Err(BondError::InsufficientTokens);
    }
    if !(corcoin_amount > 0) {
        return Err(BondError::InsufficientTokens);
    }
    let total_bond_value: u64 = match ctx.pools.total_value() {
        Ok(v) => v,
        Err(e) => {
            return Err(e);
        },
    };
    let lamports_for_gcp: u64 = match calculate_user_share(
        total_bond_value,
        ctx.corcoin_mint.supply,
        corcoin_amount,
    ) {
        Ok(s) => s,
        Err(e) => {
            return Err(e);
        },
    };
    let liquid_reserves: u64 = ctx.pools.liquid_reserve();
    if !(liquid_reserves >= lamports_for_gcp) {
        return Err(BondError::InsufficientTokens);
    }
    Ok(
        CounterPartyRedemption {
            burn: token_burn(
                ctx.corcoin_mint.key,
                ctx.gcp_corcoin_account.key,
                ctx.gcp,
                corcoin_amount,
            ),
            corcoin_balance_after: gcp_corcoin_balance - corcoin_amount,
            payout: system_transfer(ctx.bond_key, ctx.gcp, lamports_for_gcp),
        },
    )
}

} // verus!
