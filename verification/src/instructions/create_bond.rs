//! Creation: a deposit becomes a fee, a bond record, an active stake and the
//! claim tokens that stand for it.

use crate::error::BondError;
use crate::state::{Bond, Pubkey};
use crate::utils::stake::{
    stake_account_space, stake_delegate, StakeDelegationRequest, STAKE_ACCOUNT_SPACE,
};
use crate::utils::system::{system_transfer, LamportTransfer};
use crate::utils::token::{token_mint_to, TokenMint};
use vstd::prelude::*;

verus! {

/// The fee in hundredths of a percent.
pub const FEE_BPS: u64 = 100;

/// A deposit must be larger than this, so that the principal left after the
/// fee is positive.
pub const PRINCIPAL_THRESHOLD: u64 = 1_000_000_000;

/// What creation reads from the ledger.
#[derive(Clone, Copy, Debug, PartialEq, Eq)]
pub struct CreateBond {
    /// The ledger clock.
    pub now: i64,
    /// The depositor.
    pub user: Pubkey,
    /// The depositor's token account.
    pub user_corcoin_account: Pubkey,
    /// Address of the global pool.
    pub gcp: Pubkey,
    /// The validator that the stake is delegated to.
    pub validator_vote: Pubkey,
    /// Address of the stake account to create.
    pub stake_account: Pubkey,
    /// Address of the bond record.
    pub bond: Pubkey,
    /// Derivation discriminator of the bond record's address.
    pub bond_bump: u8,
    /// Address of the claim token's issuance record.
    pub corcoin_mint: Pubkey,
    /// What a stake account must hold to stay alive.
    pub stake_rent_exempt: u64,
}

/// The stake account that backs a new bond.
#[derive(Clone, Copy, Debug, PartialEq, Eq)]
pub struct StakeAccountCreation {
    /// Address of the new account.
    pub stake_account: Pubkey,
    /// Who pays for it.
    pub payer: Pubkey,
    /// Who may delegate and deactivate the stake.
    pub staker: Pubkey,
    /// Who may withdraw the stake.
    pub withdrawer: Pubkey,
    /// Bytes of the account: the staking subsystem's layout.
    pub space: u64,
    /// What the account is funded with: the principal and the floor that
    /// keeps the account alive.
    pub lamports: u64,
}

/// Everything a creation moves, in the order in which it is carried out.
#[derive(Clone, Copy, Debug, PartialEq, Eq)]
pub struct BondCreation {
    /// The fee, paid by the depositor into the global pool.
    pub fee: LamportTransfer,
    /// The principal: what becomes active stake.
    pub bond_amount: u64,
    /// The bond record as initialized.
    pub bond: Bond,
    /// The stake account to create.
    pub stake: StakeAccountCreation,
    /// The delegation of that account.
    pub delegation: StakeDelegationRequest,
    /// The claim tokens, minted to the depositor by the bond record.
    pub mint: TokenMint,
}

/// The fee on `amount`: one percent, rounded up.
pub open spec fn fee(amount: int) -> int {
    (amount * FEE_BPS + 9999) / 10000
}

/// Whether the fee on `amount` can be computed in 64 bits.
pub open spec fn fee_fits(amount: u64) -> bool {
    amount * FEE_BPS + 9999 <= u64::MAX
}

/// The bond record that a creation writes.
pub open spec fn initial_bond(ctx: CreateBond, maturity_timestamp: i64, creation_timestamp: i64) -> Bond {
    Bond {
        authority: ctx.user,
        validator: ctx.validator_vote,
        stake_account: ctx.stake_account,
        maturity_timestamp,
        creation_timestamp,
        corcoin_mint: ctx.corcoin_mint,
        bump: ctx.bond_bump,
    }
}

/// The stake account that backs a principal of `amount`: the bond record holds
/// both authorities.
pub open spec fn stake_creation(ctx: CreateBond, amount: u64) -> Result<
    StakeAccountCreation,
    BondError,
> {
    if amount + ctx.stake_rent_exempt > u64::MAX {
        Err(BondError::MathOverflow)
    } else {
        Ok(
            StakeAccountCreation {
                stake_account: ctx.stake_account,
                payer: ctx.user,
                staker: ctx.bond,
                withdrawer: ctx.bond,
                space: STAKE_ACCOUNT_SPACE as u64,
                lamports: (amount + ctx.stake_rent_exempt) as u64,
            },
        )
    }
}

/// The delegation that follows the stake account's creation.
pub open spec fn delegation_request(ctx: CreateBond) -> StakeDelegationRequest {
    StakeDelegationRequest {
        stake_account: ctx.stake_account,
        authority: ctx.bond,
        vote_account: ctx.validator_vote,
    }
}

/// The payment of the fee.
pub open spec fn fee_transfer(ctx: CreateBond, fee_amount: u64) -> LamportTransfer {
    LamportTransfer { from: ctx.user, to: ctx.gcp, lamports: fee_amount }
}

/// The issue of the claim tokens.
pub open spec fn token_mint(ctx: CreateBond, amount: u64) -> TokenMint {
    TokenMint {
        mint: ctx.corcoin_mint,
        to: ctx.user_corcoin_account,
        authority: ctx.bond,
        amount,
    }
}

/// What creation decides for a deposit of `amount` that matures at
/// `maturity_timestamp`.
pub open spec fn creation(ctx: CreateBond, amount: u64, maturity_timestamp: i64) -> Result<
    BondCreation,
    BondError,
> {
    if maturity_timestamp <= ctx.now {
        Err(BondError::MaturityInPast)
    } else if amount <= PRINCIPAL_THRESHOLD {
        Err(BondError::InvalidAmount)
    } else if !fee_fits(amount) {
        Err(BondError::MathOverflow)
    } else {
        let fee_amount = fee(amount as int) as u64;
        let bond_amount = (amount - fee_amount) as u64;
        match stake_creation(ctx, bond_amount) {
            Err(e) => Err(e),
            Ok(stake) => Ok(
                BondCreation {
                    fee: fee_transfer(ctx, fee_amount),
                    bond_amount,
                    bond: initial_bond(ctx, maturity_timestamp, ctx.now),
                    stake,
                    delegation: delegation_request(ctx),
                    mint: token_mint(ctx, bond_amount),
                },
            ),
        }
    }
}

/// The fee is the hundredth part of the amount, rounded up: the least number
/// whose hundredfold reaches the amount.
pub proof fn lemma_fee_is_ceiling(amount: int)
    requires
        0 <= amount,
    ensures
        fee(amount) == (amount + 99) / 100,
        fee(amount) * 100 >= amount,
        amount > 0 ==> (fee(amount) - 1) * 100 < amount,
        0 <= fee(amount) <= amount,
{
}

/// Every creation that succeeds mints exactly the principal, which is the
/// deposit less the fee, and the fee is one percent of the deposit rounded up.
pub proof fn lemma_creation_mints_principal(ctx: CreateBond, amount: u64, maturity_timestamp: i64)
    requires
        creation(ctx, amount, maturity_timestamp) is Ok,
    ensures
        ({
            let created = creation(ctx, amount, maturity_timestamp)->Ok_0;
            &&& created.mint.amount == created.bond_amount
            &&& created.bond_amount == amount - fee(amount as int)
            &&& created.fee.lamports == fee(amount as int)
            &&& fee(amount as int) == (amount + 99) / 100
            &&& created.bond_amount > 0
            &&& created.stake.lamports == created.bond_amount + ctx.stake_rent_exempt
            &&& created.stake.space == STAKE_ACCOUNT_SPACE
            &&& created.stake.staker == ctx.bond
            &&& created.stake.withdrawer == ctx.bond
        }),
{
    lemma_fee_is_ceiling(amount as int);
}

/// A deposit of exactly the threshold is refused; one unit more is accepted
/// whenever the maturity lies ahead and the stake account's funding fits.
pub proof fn lemma_creation_threshold(ctx: CreateBond, maturity_timestamp: i64)
    requires
        maturity_timestamp > ctx.now,
        ctx.stake_rent_exempt <= u64::MAX - PRINCIPAL_THRESHOLD,
    ensures
        creation(ctx, PRINCIPAL_THRESHOLD, maturity_timestamp) == Err::<BondCreation, BondError>(
            BondError::InvalidAmount,
        ),
        creation(ctx, 1_000_000_001, maturity_timestamp) is Ok,
        creation(ctx, 1_000_000_001, maturity_timestamp)->Ok_0.fee.lamports == 10_000_001,
        creation(ctx, 1_000_000_001, maturity_timestamp)->Ok_0.bond_amount == 990_000_000,
{
    lemma_fee_is_ceiling(1_000_000_001);
}

/// Computes the fee on `amount`: one percent, rounded up in the protocol's
/// favour; `MathOverflow` exactly when the computation leaves the 64-bit range.
pub fn calculate_fee(amount: u64) -> (fee_amount: Result<u64, BondError>)
    ensures
        fee_fits(amount) ==> fee_amount == Ok::<u64, BondError>(fee(amount as int) as u64),
        !fee_fits(amount) ==> fee_amount == Err::<u64, BondError>(BondError::MathOverflow),
        fee_amount matches Ok(f) ==> f <= amount && f == (amount + 99) / 100,
{
    proof {
        lemma_fee_is_ceiling(amount as int);
    }
    match amount.checked_mul(FEE_BPS) {
        Some(scaled) => match scaled.checked_add(9999) {
            Some(rounded) => Ok(rounded / 10000),
            None => Err(BondError::MathOverflow),
        },
        None => Err(BondError::MathOverflow),
    }
}

/// Fills in the bond record.
pub fn initialize_bond_state(
    ctx: &CreateBond,
    maturity_timestamp: i64,
    creation_timestamp: i64,
) -> (bond: Bond)
    ensures
        bond == initial_bond(*ctx, maturity_timestamp, creation_timestamp),
{
    Bond {
        authority: ctx.user,
        validator: ctx.validator_vote,
        stake_account: ctx.stake_account,
        maturity_timestamp,
        creation_timestamp,
        corcoin_mint: ctx.corcoin_mint,
        bump: ctx.bond_bump,
    }
}

/// Sizes the stake account that backs a principal of `amount`: funded with the
/// principal and the floor that keeps the account alive, with the bond record
/// as both staking and withdraw authority. `MathOverflow` exactly when the
/// funding leaves the 64-bit range.
pub fn create_and_initialize_stake_account(ctx: &CreateBond, amount: u64) -> (stake: Result<
    StakeAccountCreation,
    BondError,
>)
    ensures
        stake == stake_creation(*ctx, amount),
{
    match amount.checked_add(ctx.stake_rent_exempt) {
        Some(total_lamports) => Ok(
            StakeAccountCreation {
                stake_account: ctx.stake_account,
                payer: ctx.user,
                staker: ctx.bond,
                withdrawer: ctx.bond,
                space: stake_account_space() as u64,
                lamports: total_lamports,
            },
        ),
        None => Err(BondError::MathOverflow),
    }
}

/// Names the delegation of the new stake account: to the bond's validator,
/// signed for by the bond record.
pub fn delegate_stake_to_validator(ctx: &CreateBond) -> (request: StakeDelegationRequest)
    ensures
        request == delegation_request(*ctx),
{
    stake_delegate(ctx.stake_account, ctx.bond, ctx.validator_vote)
}

/// Names the issue of the claim tokens: `amount` tokens to the depositor's
/// token account, signed for by the bond record.
pub fn mint_corcoin_tokens(ctx: &CreateBond, amount: u64) -> (request: TokenMint)
    ensures
        request == token_mint(*ctx, amount),
{
    token_mint_to(ctx.corcoin_mint, ctx.user_corcoin_account, ctx.bond, amount)
}

/// Names the payment of the fee: from the depositor into the global pool.
pub fn transfer_fee_to_gcp(ctx: &CreateBond, fee_amount: u64) -> (transfer: LamportTransfer)
    ensures
        transfer == fee_transfer(*ctx, fee_amount),
{
    system_transfer(ctx.user, ctx.gcp, fee_amount)
}

/// Decides a creation.
///
/// The maturity must lie after the ledger clock (`MaturityInPast`) and the
/// deposit above the threshold (`InvalidAmount`). The fee goes to the global
/// pool; the rest is the principal, which funds the stake account and is minted
/// one for one as claim tokens. `MathOverflow` where the fee or the stake
/// account's funding leaves the 64-bit range.
pub fn handler(ctx: &CreateBond, amount: u64, maturity_timestamp: i64) -> (created: Result<
    BondCreation,
    BondError,
>)
    ensures
        created == creation(*ctx, amount, maturity_timestamp),
        created matches Ok(c) ==> c.mint.amount == c.bond_amount && c.bond_amount == amount
            - fee(amount as int) && fee(amount as int) == (amount + 99) / 100,
{
    if !(maturity_timestamp > ctx.now) {
        return Err(BondError::MaturityInPast);
    }
    if !(amount > PRINCIPAL_THRESHOLD) {
        return Err(BondError::InvalidAmount);
    }
    let fee_amount: u64 = match calculate_fee(amount) {
        Ok(f) => f,
        Err(e) => {
            return Err(e);
        },
    };
    let bond_amount: u64 = match amount.checked_sub(fee_amount) {
        Some(b) => b,
        None => {
            return Err(BondError::MathOverflow);
        },
    };
    let bond = initialize_bond_state(ctx, maturity_timestamp, ctx.now);
    let stake = match create_and_initialize_stake_account(ctx, bond_amount) {
        Ok(s) => s,
        Err(e) => {
            return Err(e);
        },
    };
    let delegation = delegate_stake_to_validator(ctx);
    Ok(
        BondCreation {
            fee: transfer_fee_to_gcp(ctx, fee_amount),
            bond_amount,
            bond,
            stake,
            delegation,
            mint: mint_corcoin_tokens(ctx, bond_amount),
        },
    )
}

} // verus!
