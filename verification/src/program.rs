//! The operations as the ledger's callers reach them: each evaluates its
//! authorization predicate and then decides.

use crate::error::{BondError, InstructionError};
use crate::instructions::admin_withdraw::{admin_withdrawal, AdminWithdraw, AdminWithdrawal};
use crate::instructions::counter_party_redeem::{
    counter_party_redemption, CounterPartyRedeem, CounterPartyRedemption,
};
use crate::instructions::create_bond::{creation, BondCreation, CreateBond};
use crate::instructions::initialize::{initialization, Initialization, Initialize};
use crate::instructions::redeem_lamports::{lamport_redemption, LamportRedemption, RedeemLamports};
use crate::instructions::redeem_stake::{stake_redemption, RedeemStake, StakeRedemption};
use crate::instructions::update_bond_reserves::{
    reserve_update, RebalanceAction, UpdateBondReserves,
};
use crate::state::Pubkey;
use crate::utils::bond::user_share;
use vstd::prelude::*;

verus! {

/// An engine's refusal as the refusal of the whole instruction.
pub open spec fn lifted<T>(decided: Result<T, BondError>) -> Result<T, InstructionError> {
    match decided {
        Ok(t) => Ok(t),
        Err(e) => Err(InstructionError::Bond(e)),
    }
}

/// Turns an engine's refusal into the refusal of the whole instruction.
pub fn lift<T>(decided: Result<T, BondError>) -> (r: Result<T, InstructionError>)
    ensures
        r == lifted(decided),
{
    match decided {
        Ok(t) => Ok(t),
        Err(e) => Err(InstructionError::Bond(e)),
    }
}

/// On every redemption path, a redemption that succeeds is worth the claim's
/// share of the bond's value, the product of value and claim divided by the
/// supply and rounded down, and takes exactly the claim out of the token
/// account that it is redeemed from.
pub proof fn lemma_redemption_share_and_claim(
    cash: RedeemLamports,
    stake: RedeemStake,
    desk: CounterPartyRedeem,
    corcoin_amount: u64,
    minimum_delegation: Option<(Pubkey, Vec<u8>)>,
)
    ensures
        lamport_redemption(cash, corcoin_amount) matches Ok(r) ==> {
            &&& r.user_share == user_share(
                cash.pools.total() as u64,
                cash.corcoin_mint.supply,
                corcoin_amount,
            )
            &&& cash.corcoin_mint.supply != 0 ==> r.user_share == (cash.pools.total()
                * corcoin_amount) / (cash.corcoin_mint.supply as int)
            &&& r.burn.amount == corcoin_amount
            &&& r.burn.from == cash.user_corcoin_account.key
            &&& r.corcoin_balance_after == cash.user_corcoin_account.amount - corcoin_amount
        },
        stake_redemption(stake, corcoin_amount, minimum_delegation) matches Ok(r) ==> {
            &&& r.split.lamports == user_share(
                stake.pools.total() as u64,
                stake.corcoin_mint.supply,
                corcoin_amount,
            )
            &&& stake.corcoin_mint.supply != 0 ==> r.split.lamports == (stake.pools.total()
                * corcoin_amount) / (stake.corcoin_mint.supply as int)
            &&& r.burn.amount == corcoin_amount
            &&& r.burn.from == stake.user_corcoin_account.key
            &&& r.corcoin_balance_after == stake.user_corcoin_account.amount - corcoin_amount
        },
        counter_party_redemption(desk, corcoin_amount) matches Ok(r) ==> {
            &&& r.payout.lamports == user_share(
                desk.pools.total() as u64,
                desk.corcoin_mint.supply,
                corcoin_amount,
            )
            &&& desk.corcoin_mint.supply != 0 ==> r.payout.lamports == (desk.pools.total()
                * corcoin_amount) / (desk.corcoin_mint.supply as int)
            &&& r.burn.amount == corcoin_amount
            &&& r.burn.from == desk.gcp_corcoin_account.key
            &&& r.corcoin_balance_after == desk.gcp_corcoin_account.amount - corcoin_amount
        },
{
}

/// Sets a deployment up: records the admin and seeds the global pool.
pub fn initialize(ctx: &Initialize, admin: Pubkey, amount: u64) -> (r: Result<
    Initialization,
    InstructionError,
>)
    ensures
        r == Ok::<Initialization, InstructionError>(initialization(*ctx, admin, amount)),
{
    Ok(crate::instructions::initialize::handler(ctx, admin, amount))
}

/// Creates a bond from a deposit of `amount` that matures at
/// `maturity_timestamp`.
pub fn create_bond(ctx: &CreateBond, amount: u64, maturity_timestamp: i64) -> (r: Result<
    BondCreation,
    InstructionError,
>)
    ensures
        r == lifted(creation(*ctx, amount, maturity_timestamp)),
{
    lift(crate::instructions::create_bond::handler(ctx, amount, maturity_timestamp))
}

/// Redeems `corcoin_amount` claim tokens for cash. Refused with
/// `ConstraintViolated` unless the holder is the bond's authority and the
/// accounts are the bond's.
pub fn redeem_lamports(ctx: &RedeemLamports, corcoin_amount: u64) -> (r: Result<
    LamportRedemption,
    InstructionError,
>)
    ensures
        !ctx.constraints() ==> r == Err::<LamportRedemption, InstructionError>(
            InstructionError::ConstraintViolated,
        ),
        ctx.constraints() ==> r == lifted(lamport_redemption(*ctx, corcoin_amount)),
{
    if !ctx.constraints_hold() {
        return Err(InstructionError::ConstraintViolated);
    }
    lift(crate::instructions::redeem_lamports::handler(ctx, corcoin_amount))
}

/// Redeems `corcoin_amount` claim tokens for stake. Refused with
/// `ConstraintViolated` unless the holder is the bond's authority and the
/// accounts are the bond's.
pub fn redeem_stake(
    ctx: &RedeemStake,
    corcoin_amount: u64,
    minimum_delegation: Option<(Pubkey, Vec<u8>)>,
) -> (r: Result<StakeRedemption, InstructionError>)
    ensures
        !ctx.constraints() ==> r == Err::<StakeRedemption, InstructionError>(
            InstructionError::ConstraintViolated,
        ),
        ctx.constraints() ==> r == stake_redemption(*ctx, corcoin_amount, minimum_delegation),
{
    if !ctx.constraints_hold() {
        return Err(InstructionError::ConstraintViolated);
    }
    crate::instructions::redeem_stake::handler(ctx, corcoin_amount, minimum_delegation)
}

/// Pays `amount` from the global pool to the admin. Refused with
/// `ConstraintViolated` unless the signer is the admin on record.
pub fn admin_withdraw(ctx: &AdminWithdraw, amount: u64) -> (r: Result<
    AdminWithdrawal,
    InstructionError,
>)
    ensures
        !ctx.constraints() ==> r == Err::<AdminWithdrawal, InstructionError>(
            InstructionError::ConstraintViolated,
        ),
        ctx.constraints() ==> r == Ok::<AdminWithdrawal, InstructionError>(
            admin_withdrawal(*ctx, amount),
        ),
{
    if !ctx.constraints_hold() {
        return Err(InstructionError::ConstraintViolated);
    }
    Ok(crate::instructions::admin_withdraw::handler(ctx, amount))
}

/// Runs one round of reserve rebalancing; anyone may call it. Refused with
/// `ConstraintViolated` unless the accounts are the bond's.
pub fn update_bond_reserves(
    ctx: &UpdateBondReserves,
    minimum_delegation: Option<(Pubkey, Vec<u8>)>,
) -> (r: Result<RebalanceAction, InstructionError>)
    ensures
        !ctx.constraints() ==> r == Err::<RebalanceAction, InstructionError>(
            InstructionError::ConstraintViolated,
        ),
        ctx.constraints() ==> r == reserve_update(*ctx, minimum_delegation),
{
    if !ctx.constraints_hold() {
        return Err(InstructionError::ConstraintViolated);
    }
    crate::instructions::update_bond_reserves::handler(ctx, minimum_delegation)
}

/// Settles `corcoin_amount` claim tokens of the global pool from the bond's
/// liquid reserve. Refused with `ConstraintViolated` unless the accounts are
/// the bond's.
pub fn counter_party_redeem(ctx: &CounterPartyRedeem, corcoin_amount: u64) -> (r: Result<
    CounterPartyRedemption,
    InstructionError,
>)
    ensures
        !ctx.constraints() ==> r == Err::<CounterPartyRedemption, InstructionError>(
            InstructionError::ConstraintViolated,
        ),
        ctx.constraints() ==> r == lifted(counter_party_redemption(*ctx, corcoin_amount)),
{
    if !ctx.constraints_hold() {
        return Err(InstructionError::ConstraintViolated);
    }
    lift(crate::instructions::counter_party_redeem::handler(ctx, corcoin_amount))
}

} // verus!
