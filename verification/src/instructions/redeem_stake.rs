//! Stake redemption: a holder's claim is settled by splitting its share out of
//! the bond's active stake into an account that the holder then owns.

use crate::error::{BondError, InstructionError};
use crate::instructions::redeem_lamports::{redemption_conditions, validate_redemption_conditions};
use crate::state::{Bond, Mint, Pubkey, TokenAccount};
use crate::utils::bond::{calculate_user_share, user_share, user_share_fits, CollateralPools};
use crate::utils::stake::{
    get_minimum_stake_amount, minimum_stake_amount, stake_authorize, stake_create, stake_split,
    u64_from_le, StakeAccountLayout, StakeAuthorization, StakeAuthorize, StakeSplit,
    STAKE_ACCOUNT_SPACE, STAKE_PROGRAM_ID,
};
use crate::utils::system::{system_transfer, LamportTransfer};
use crate::utils::token::{token_burn, TokenBurn};
use vstd::prelude::*;

verus! {

/// What stake redemption reads from the ledger.
#[derive(Clone, Copy, Debug, PartialEq, Eq)]
pub struct RedeemStake {
    /// The ledger clock.
    pub now: i64,
    /// The holder who redeems.
    pub user: Pubkey,
    /// The bond redeemed against.
    pub bond: Bond,
    /// Address of the bond record.
    pub bond_key: Pubkey,
    /// The claim token's issuance record.
    pub corcoin_mint: Mint,
    /// The holder's claim tokens.
    pub user_corcoin_account: TokenAccount,
    /// Address of the active stake account handed in.
    pub stake_account: Pubkey,
    /// The account that receives the split stake.
    pub destination_stake_account: Pubkey,
    /// The balances behind the bond.
    pub pools: CollateralPools,
    /// What a stake account must hold to stay alive.
    pub stake_rent_exempt: u64,
}

/// The seeds from which a bond record's address is derived, and with which
/// the bond signs.
#[derive(Clone, Copy, Debug, PartialEq, Eq)]
pub struct BondSeeds {
    /// The letters `bond`.
    pub prefix: [u8; 4],
    /// The bond's authority.
    pub authority: [u8; 32],
    /// The bond's validator.
    pub validator: [u8; 32],
    /// The maturity, least significant byte first.
    pub maturity: [u8; 8],
    /// The derivation discriminator.
    pub bump: u8,
}

/// The account that receives redeemed stake, as it is prepared for the split.
#[derive(Clone, Copy, Debug, PartialEq, Eq)]
pub struct DestinationStakeAccount {
    /// The account, supplied by the holder, laid out as a stake account.
    pub layout: StakeAccountLayout,
    /// What keeps the account alive, paid into it by the holder.
    pub rent: LamportTransfer,
}

/// What a stake redemption moves, in the order in which it is carried out.
#[derive(Clone, Copy, Debug, PartialEq, Eq)]
pub struct StakeRedemption {
    /// The account to prepare for the split.
    pub destination: DestinationStakeAccount,
    /// The share, split out of the active stake into the destination account
    /// on the bond's authority.
    pub split: StakeSplit,
    /// What stays in the active stake account.
    pub remaining_stake: u64,
    /// The claim tokens, burned from the holder's token account.
    pub burn: TokenBurn,
    /// What the holder's token account holds afterwards.
    pub corcoin_balance_after: u64,
    /// The staking authority over the destination passes to the holder.
    pub staker: StakeAuthorization,
    /// The withdraw authority over the destination passes to the holder.
    pub withdrawer: StakeAuthorization,
}

impl RedeemStake {
    /// The accounts are the ones that the bond records: the holder is the
    /// bond's authority and owns the token account, and the issuance record and
    /// the stake account are the bond's.
    pub open spec fn constraints(&self) -> bool {
        &&& self.bond.authority == self.user
        &&& self.corcoin_mint.key == self.bond.corcoin_mint
        &&& self.user_corcoin_account.owner == self.user
        &&& self.user_corcoin_account.mint == self.corcoin_mint.key
        &&& self.stake_account == self.bond.stake_account
    }

    /// Evaluates the authorization predicate.
    pub fn constraints_hold(&self) -> (hold: bool)
        ensures
            hold == self.constraints(),
    {
        self.bond.authority.equals(&self.user) && self.corcoin_mint.key.equals(
            &self.bond.corcoin_mint,
        ) && self.user_corcoin_account.owner.equals(&self.user)
            && self.user_corcoin_account.mint.equals(&self.corcoin_mint.key)
            && self.stake_account.equals(&self.bond.stake_account)
    }
}

/// The number that a signed 64-bit value is stored as.
pub open spec fn twos_complement(value: i64) -> int {
    if value >= 0 {
        value as int
    } else {
        value + 0x1_0000_0000_0000_0000
    }
}

/// The destination account as stake redemption prepares it.
pub open spec fn destination_account(ctx: RedeemStake) -> DestinationStakeAccount {
    DestinationStakeAccount {
        layout: StakeAccountLayout {
            stake_account: ctx.destination_stake_account,
            space: STAKE_ACCOUNT_SPACE as u64,
            owner: Pubkey { bytes: STAKE_PROGRAM_ID },
        },
        rent: LamportTransfer {
            from: ctx.user,
            to: ctx.destination_stake_account,
            lamports: ctx.stake_rent_exempt,
        },
    }
}

/// The split of a share out of the bond's active stake.
pub open spec fn share_split(ctx: RedeemStake, lamports: u64) -> StakeSplit {
    StakeSplit {
        source: ctx.stake_account,
        destination: ctx.destination_stake_account,
        authority: ctx.bond_key,
        lamports,
    }
}

/// The burning of a holder's claim.
pub open spec fn claim_burn(ctx: RedeemStake, corcoin_amount: u64) -> TokenBurn {
    TokenBurn {
        mint: ctx.corcoin_mint.key,
        from: ctx.user_corcoin_account.key,
        authority: ctx.user,
        amount: corcoin_amount,
    }
}

/// The handing over of one authority over the destination to the holder.
pub open spec fn authority_transfer(ctx: RedeemStake, which: StakeAuthorize) -> StakeAuthorization {
    StakeAuthorization {
        stake_account: ctx.destination_stake_account,
        authority: ctx.bond_key,
        new_authority: ctx.user,
        stake_authorize: which,
    }
}

/// Whether a split of `user_share` out of `stake_balance` respects the minimum
/// delegation on both pieces.
pub open spec fn stake_split_amounts(user_share: u64, stake_balance: u64, minimum_delegation: u64) -> Result<
    (),
    BondError,
> {
    if stake_balance < user_share {
        Err(BondError::MathOverflow)
    } else if user_share >= minimum_delegation && (stake_balance - user_share >= minimum_delegation
        || stake_balance - user_share == 0) {
        Ok(())
    } else {
        Err(BondError::InsufficientStakeAmount)
    }
}

/// The stake that a claim of `corcoin_amount` is worth: its share of the
/// bond's value, which the active stake alone must cover.
pub open spec fn redeemable_stake(ctx: RedeemStake, corcoin_amount: u64) -> Result<u64, BondError> {
    match redemption_conditions(ctx.bond, ctx.now, ctx.user_corcoin_account.amount, corcoin_amount) {
        Err(e) => Err(e),
        Ok(_) => {
            if ctx.pools.total() > u64::MAX {
                Err(BondError::MathOverflow)
            } else if !user_share_fits(
                ctx.pools.total() as u64,
                ctx.corcoin_mint.supply,
                corcoin_amount,
            ) {
                Err(BondError::MathOverflow)
            } else if user_share(ctx.pools.total() as u64, ctx.corcoin_mint.supply, corcoin_amount)
                > ctx.pools.active {
                Err(BondError::InsufficientTokens)
            } else {
                Ok(
                    user_share(
                        ctx.pools.total() as u64,
                        ctx.corcoin_mint.supply,
                        corcoin_amount,
                    ) as u64,
                )
            }
        },
    }
}

/// What stake redemption decides once the minimum delegation is known.
pub open spec fn stake_redemption_with_minimum(
    ctx: RedeemStake,
    corcoin_amount: u64,
    minimum_delegation: u64,
) -> Result<StakeRedemption, BondError> {
    match redeemable_stake(ctx, corcoin_amount) {
        Err(e) => Err(e),
        Ok(share) => match stake_split_amounts(share, ctx.pools.active, minimum_delegation) {
            Err(e) => Err(e),
            Ok(_) => Ok(
                StakeRedemption {
                    destination: destination_account(ctx),
                    split: share_split(ctx, share),
                    remaining_stake: (ctx.pools.active - share) as u64,
                    burn: claim_burn(ctx, corcoin_amount),
                    corcoin_balance_after: (ctx.user_corcoin_account.amount - corcoin_amount) as u64,
                    staker: authority_transfer(ctx, StakeAuthorize::Staker),
                    withdrawer: authority_transfer(ctx, StakeAuthorize::Withdrawer),
                },
            ),
        },
    }
}

/// What stake redemption decides for a claim of `corcoin_amount`, given the
/// staking subsystem's answer on its minimum delegation.
pub open spec fn stake_redemption(
    ctx: RedeemStake,
    corcoin_amount: u64,
    minimum_delegation: Option<(Pubkey, Vec<u8>)>,
) -> Result<StakeRedemption, InstructionError> {
    match redeemable_stake(ctx, corcoin_amount) {
        Err(e) => Err(InstructionError::Bond(e)),
        Ok(_) => match minimum_stake_amount(minimum_delegation) {
            Err(e) => Err(e),
            Ok(minimum) => match stake_redemption_with_minimum(ctx, corcoin_amount, minimum) {
                Err(e) => Err(InstructionError::Bond(e)),
                Ok(redeemed) => Ok(redeemed),
            },
        },
    }
}

/// A split that would leave the active stake with a remainder that is neither
/// zero nor a full minimum delegation is refused, whatever the claim and the
/// supply made the share.
pub proof fn lemma_dust_remainder_refused(user_share: u64, stake_balance: u64, minimum_delegation: u64)
    requires
        user_share <= stake_balance,
        0 < stake_balance - user_share < minimum_delegation,
    ensures
        stake_split_amounts(user_share, stake_balance, minimum_delegation) == Err::<
            (),
            BondError,
        >(BondError::InsufficientStakeAmount),
{
}

/// Checks a split against the minimum delegation: the withdrawn share must
/// reach it, and what remains must reach it or be nothing
/// (`InsufficientStakeAmount`). `MathOverflow` where the share exceeds the
/// balance.
pub fn validate_stake_split_amounts(
    user_share: u64,
    stake_balance: u64,
    minimum_delegation: u64,
) -> (checked: Result<(), BondError>)
    ensures
        checked == stake_split_amounts(user_share, stake_balance, minimum_delegation),
{
    let remaining_stake: u64 = match stake_balance.checked_sub(user_share) {
        Some(r) => r,
        None => {
            return Err(BondError::MathOverflow);
        },
    };
    if !(user_share >= minimum_delegation && (remaining_stake >= minimum_delegation
        || remaining_stake == 0)) {
        return Err(BondError::InsufficientStakeAmount);
    }
    Ok(())
}

/// The seeds of a bond record's address: the letters `bond`, the authority,
/// the validator, the maturity least significant byte first, and the
/// discriminator.
pub fn get_bond_seeds(bond: &Bond) -> (seeds: BondSeeds)
    ensures
        seeds.prefix@ == seq![98u8, 111u8, 110u8, 100u8],
        seeds.authority == bond.authority.bytes,
        seeds.validator == bond.validator.bytes,
        u64_from_le(seeds.maturity@) == twos_complement(bond.maturity_timestamp),
        seeds.bump == bond.bump,
{
    let stored: u64 = if bond.maturity_timestamp >= 0 {
        bond.maturity_timestamp as u64
    } else {
        ((bond.maturity_timestamp + i64::MAX) + 1) as u64 + 0x8000_0000_0000_0000u64
    };
    let b0: u8 = (stored % 256) as u8;
    let r1: u64 = stored / 256;
    let b1: u8 = (r1 % 256) as u8;
    let r2: u64 = r1 / 256;
    let b2: u8 = (r2 % 256) as u8;
    let r3: u64 = r2 / 256;
    let b3: u8 = (r3 % 256) as u8;
    let r4: u64 = r3 / 256;
    let b4: u8 = (r4 % 256) as u8;
    let r5: u64 = r4 / 256;
    let b5: u8 = (r5 % 256) as u8;
    let r6: u64 = r5 / 256;
    let b6: u8 = (r6 % 256) as u8;
    let r7: u64 = r6 / 256;
    let b7: u8 = (r7 % 256) as u8;
    let prefix: [u8; 4] = [98, 111, 110, 100];
    let maturity: [u8; 8] = [b0, b1, b2, b3, b4, b5, b6, b7];
    BondSeeds {
        prefix,
        authority: bond.authority.bytes,
        validator: bond.validator.bytes,
        maturity,
        bump: bond.bump,
    }
}

/// Prepares the destination of a stake redemption: the holder's account is
/// laid out as a stake account, funded by the holder with what keeps it alive,
/// and handed to the staking subsystem.
pub fn create_destination_stake_account(ctx: &RedeemStake) -> (destination: DestinationStakeAccount)
    ensures
        destination == destination_account(*ctx),
{
    DestinationStakeAccount {
        layout: stake_create(ctx.destination_stake_account),
        rent: system_transfer(ctx.user, ctx.destination_stake_account, ctx.stake_rent_exempt),
    }
}

/// Names the split of the share: out of the bond's active stake into the
/// destination, signed for by the bond record.
pub fn split_stake_account(ctx: &RedeemStake, user_share_lamports: u64) -> (split: StakeSplit)
    ensures
        split == share_split(*ctx, user_share_lamports),
{
    stake_split(
        ctx.stake_account,
        ctx.destination_stake_account,
        ctx.bond_key,
        user_share_lamports,
    )
}

/// Names the burning of the claim: out of the holder's token account, signed
/// for by the holder.
pub fn burn_corcoin_tokens(ctx: &RedeemStake, corcoin_amount: u64) -> (burn: TokenBurn)
    ensures
        burn == claim_burn(*ctx, corcoin_amount),
{
    token_burn(ctx.corcoin_mint.key, ctx.user_corcoin_account.key, ctx.user, corcoin_amount)
}

/// Names the handing over of the destination: the staking authority and the
/// withdraw authority both pass from the bond record to the holder.
pub fn transfer_stake_authorities(ctx: &RedeemStake) -> (authorities: (
    StakeAuthorization,
    StakeAuthorization,
))
    ensures
        authorities.0 == authority_transfer(*ctx, StakeAuthorize::Staker),
        authorities.1 == authority_transfer(*ctx, StakeAuthorize::Withdrawer),
{
    (
        stake_authorize(
            ctx.destination_stake_account,
            ctx.bond_key,
            ctx.user,
            StakeAuthorize::Staker,
        ),
        stake_authorize(
            ctx.destination_stake_account,
            ctx.bond_key,
            ctx.user,
            StakeAuthorize::Withdrawer,
        ),
    )
}

/// Works out the stake that a claim is worth.
///
/// After the common checks, the share is the claim's part of the bond's whole
/// value; `InsufficientTokens` where it exceeds the active stake, from which
/// alone it can be split.
pub fn user_share_lamports(ctx: &RedeemStake, corcoin_amount: u64) -> (share: Result<
    u64,
    BondError,
>)
    ensures
        share == redeemable_stake(*ctx, corcoin_amount),
{
    match validate_redemption_conditions(
        &ctx.bond,
        ctx.now,
        ctx.user_corcoin_account.amount,
        corcoin_amount,
    ) {
        Ok(_) => {},
        Err(e) => {
            return Err(e);
        },
    }
    let active_stake_balance: u64 = ctx.pools.active_balance();
    let total_bond_value: u64 = match ctx.pools.total_value() {
        Ok(v) => v,
        Err(e) => {
            return Err(e);
        },
    };
    let share: u64 = match calculate_user_share(
        total_bond_value,
        ctx.corcoin_mint.supply,
        corcoin_amount,
    ) {
        Ok(s) => s,
        Err(e) => {
            return Err(e);
        },
    };
    if !(share <= active_stake_balance) {
        return Err(BondError::InsufficientTokens);
    }
    Ok(share)
}

/// Decides a stake redemption once the minimum delegation is known.
///
/// The share must respect the minimum delegation on both pieces of the split.
/// The destination account is laid out and funded by the holder, the share is
/// split into it, the claim tokens are burned, and both authorities over the
/// destination pass to the holder.
pub fn redeem_with_minimum(ctx: &RedeemStake, corcoin_amount: u64, minimum_delegation: u64) -> (redeemed:
    Result<StakeRedemption, BondError>)
    ensures
        redeemed == stake_redemption_with_minimum(*ctx, corcoin_amount, minimum_delegation),
        redeemed matches Ok(r) ==> {
            &&& r.burn.amount == corcoin_amount
            &&& r.corcoin_balance_after == ctx.user_corcoin_account.amount - corcoin_amount
            &&& r.split.lamports == user_share(
                ctx.pools.total() as u64,
                ctx.corcoin_mint.supply,
                corcoin_amount,
            )
            &&& r.split.lamports + r.remaining_stake == ctx.pools.active
            &&& r.split.lamports >= minimum_delegation
            &&& r.remaining_stake == 0 || r.remaining_stake >= minimum_delegation
        },
{
    let share: u64 = match user_share_lamports(ctx, corcoin_amount) {
        Ok(s) => s,
        Err(e) => {
            return Err(e);
        },
    };
    match validate_stake_split_amounts(share, ctx.pools.active, minimum_delegation) {
        Ok(_) => {},
        Err(e) => {
            return Err(e);
        },
    }
    let authorities = transfer_stake_authorities(ctx);
    Ok(
        StakeRedemption {
            destination: create_destination_stake_account(ctx),
            split: split_stake_account(ctx, share),
            remaining_stake: ctx.pools.active - share,
            burn: burn_corcoin_tokens(ctx, corcoin_amount),
            corcoin_balance_after: ctx.user_corcoin_account.amount - corcoin_amount,
            staker: authorities.0,
            withdrawer: authorities.1,
        },
    )
}

/// Decides a stake redemption.
///
/// `minimum_delegation` is what the ledger holds after the staking subsystem
/// was asked for its minimum delegation. It is read only once the claim has
/// passed the checks that do not need it.
pub fn handler(
    ctx: &RedeemStake,
    corcoin_amount: u64,
    minimum_delegation: Option<(Pubkey, Vec<u8>)>,
) -> (redeemed: Result<StakeRedemption, InstructionError>)
    ensures
        redeemed == stake_redemption(*ctx, corcoin_amount, minimum_delegation),
{
    match user_share_lamports(ctx, corcoin_amount) {
        Ok(_) => {},
        Err(e) => {
            return Err(InstructionError::Bond(e));
        },
    }
    let minimum: u64 = match get_minimum_stake_amount(minimum_delegation) {
        Ok(m) => m,
        Err(e) => {
            return Err(e);
        },
    };
    match redeem_with_minimum(ctx, corcoin_amount, minimum) {
        Ok(redeemed) => Ok(redeemed),
        Err(e) => Err(InstructionError::Bond(e)),
    }
}

} // verus!
