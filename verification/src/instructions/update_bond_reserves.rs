//! Reserve rebalancing: after maturity, value moves from the active stake
//! through the bond's cooling account into the liquid reserve, so that the
//! reserve covers the claim tokens that the global pool holds.

use crate::error::{BondError, InstructionError};
use crate::instructions::counter_party_redeem::{
    counter_party_redemption, CounterPartyRedeem, CounterPartyRedemption,
};
use crate::state::{Bond, Mint, Pubkey, TokenAccount};
use crate::utils::bond::{
    calculate_user_share, lemma_user_share_monotonic, lemma_user_share_of_added_value,
    user_share, user_share_fits, CollateralPools,
};
use crate::utils::stake::{
    decode_stake_history, decoded_stake_history, get_minimum_stake_amount, get_stake_status,
    minimum_stake_amount, stake_create, stake_deactivate, stake_split, stake_status,
    stake_withdraw, StakeAccountLayout, StakeDeactivation, StakeSplit, StakeStatus,
    StakeWithdrawal, STAKE_ACCOUNT_SPACE, STAKE_PROGRAM_ID,
};
use crate::utils::system::{system_transfer, LamportTransfer};
use vstd::prelude::*;

verus! {

/// What rebalancing reads from the ledger.
#[derive(Clone, Debug, PartialEq, Eq)]
pub struct UpdateBondReserves {
    /// The ledger clock.
    pub now: i64,
    /// The current epoch.
    pub epoch: u64,
    /// The bond whose reserves are rebalanced.
    pub bond: Bond,
    /// Address of the bond record.
    pub bond_key: Pubkey,
    /// The claim token's issuance record.
    pub corcoin_mint: Mint,
    /// Address of the global pool.
    pub gcp: Pubkey,
    /// The global pool's claim tokens.
    pub gcp_corcoin_account: TokenAccount,
    /// Address of the active stake account handed in.
    pub stake_account: Pubkey,
    /// Address of the bond's cooling account.
    pub deactivating_stake: Pubkey,
    /// The balances behind the bond.
    pub pools: CollateralPools,
    /// What a stake account must hold to stay alive.
    pub stake_rent_exempt: u64,
    /// Payload of the bond's cooling account.
    pub deactivating_stake_data: Vec<u8>,
    /// The ledger's record of the activation schedule.
    pub stake_history_data: Vec<u8>,
}

/// The accounts between which rebalancing moves value.
#[derive(Clone, Copy, Debug, PartialEq, Eq)]
pub struct ReserveAccounts {
    /// The active stake account.
    pub stake_account: Pubkey,
    /// The bond's cooling account.
    pub deactivating_stake: Pubkey,
    /// The bond record, which holds the authority over both and the liquid
    /// reserve.
    pub bond: Pubkey,
    /// The global pool.
    pub gcp: Pubkey,
}

/// What one round of rebalancing does.
#[derive(Clone, Copy, Debug, PartialEq, Eq)]
pub enum RebalanceAction {
    /// Nothing is moved.
    Nothing,
    /// The cooling account is laid out; the global pool pays what keeps it
    /// alive; stake is split into it out of the active stake on the bond's
    /// authority, and it starts to cool down.
    BeginUnstake {
        layout: StakeAccountLayout,
        rent: LamportTransfer,
        split: StakeSplit,
        deactivation: StakeDeactivation,
    },
    /// The cooling account's whole balance is withdrawn into the bond record.
    Withdraw { withdrawal: StakeWithdrawal },
}

/// The collateral of one bond between two operations: its balances and the
/// status of its cooling account.
#[derive(Clone, Copy, Debug, PartialEq, Eq, Structural)]
pub struct ReserveState {
    /// The balances behind the bond.
    pub pools: CollateralPools,
    /// Status of the cooling account.
    pub cooling: StakeStatus,
}

impl UpdateBondReserves {
    /// The accounts are the ones that the bond records, and the token account
    /// is the global pool's holding of the bond's claim token.
    pub open spec fn constraints(&self) -> bool {
        &&& self.corcoin_mint.key == self.bond.corcoin_mint
        &&& self.gcp_corcoin_account.owner == self.gcp
        &&& self.gcp_corcoin_account.mint == self.corcoin_mint.key
        &&& self.stake_account == self.bond.stake_account
    }

    /// Evaluates the authorization predicate.
    pub fn constraints_hold(&self) -> (hold: bool)
        ensures
            hold == self.constraints(),
    {
        self.corcoin_mint.key.equals(&self.bond.corcoin_mint)
            && self.gcp_corcoin_account.owner.equals(&self.gcp)
            && self.gcp_corcoin_account.mint.equals(&self.corcoin_mint.key)
            && self.stake_account.equals(&self.bond.stake_account)
    }

    /// The accounts between which the round moves value.
    pub open spec fn accounts(&self) -> ReserveAccounts {
        ReserveAccounts {
            stake_account: self.stake_account,
            deactivating_stake: self.deactivating_stake,
            bond: self.bond_key,
            gcp: self.gcp,
        }
    }

    /// The accounts between which the round moves value.
    pub fn reserve_accounts(&self) -> (accounts: ReserveAccounts)
        ensures
            accounts == self.accounts(),
    {
        ReserveAccounts {
            stake_account: self.stake_account,
            deactivating_stake: self.deactivating_stake,
            bond: self.bond_key,
            gcp: self.gcp,
        }
    }
}

/// What must leave the stake so that the liquid reserve covers `gcp_tokens`
/// claim tokens: their share of the bond's value, less the reserve, and never
/// below zero. Nothing where the global pool holds no claim token.
pub open spec fn lamports_needed(pools: CollateralPools, supply: u64, gcp_tokens: u64) -> Result<
    u64,
    BondError,
> {
    if gcp_tokens == 0 {
        Ok(0)
    } else if pools.total() > u64::MAX {
        Err(BondError::MathOverflow)
    } else if !user_share_fits(pools.total() as u64, supply, gcp_tokens) {
        Err(BondError::MathOverflow)
    } else if user_share(pools.total() as u64, supply, gcp_tokens) > pools.liquid() {
        Ok((user_share(pools.total() as u64, supply, gcp_tokens) - pools.liquid()) as u64)
    } else {
        Ok(0)
    }
}

/// The need of a bond at the ledger's present state; none is computed before
/// the maturity.
pub open spec fn unstake_need(ctx: UpdateBondReserves) -> Result<u64, BondError> {
    if ctx.now < ctx.bond.maturity_timestamp {
        Err(BondError::BondNotMatured)
    } else {
        lamports_needed(ctx.pools, ctx.corcoin_mint.supply, ctx.gcp_corcoin_account.amount)
    }
}

/// The amount that a need is raised to: the staking subsystem moves no less
/// than its minimum delegation.
pub open spec fn clamped_unstake(lamports_to_unstake: u64, minimum_delegation: u64) -> u64 {
    if lamports_to_unstake >= minimum_delegation {
        lamports_to_unstake
    } else {
        minimum_delegation
    }
}

/// What leaves the active stake: the clamped amount, or the whole balance
/// where the remainder would be neither nothing nor a full minimum delegation.
pub open spec fn split_amount(clamped: u64, active: u64, minimum_delegation: u64) -> u64
    recommends
        clamped <= active,
{
    if active - clamped < minimum_delegation && active - clamped > 0 {
        active
    } else {
        clamped
    }
}

/// The start of a cycle: the cooling account is laid out and funded by the
/// global pool, `split_lamports` are split into it out of the active stake,
/// and it starts to cool down, the last two on the bond's authority.
pub open spec fn begin_unstake(
    accounts: ReserveAccounts,
    stake_rent_exempt: u64,
    split_lamports: u64,
) -> RebalanceAction {
    RebalanceAction::BeginUnstake {
        layout: StakeAccountLayout {
            stake_account: accounts.deactivating_stake,
            space: STAKE_ACCOUNT_SPACE as u64,
            owner: Pubkey { bytes: STAKE_PROGRAM_ID },
        },
        rent: LamportTransfer {
            from: accounts.gcp,
            to: accounts.deactivating_stake,
            lamports: stake_rent_exempt,
        },
        split: StakeSplit {
            source: accounts.stake_account,
            destination: accounts.deactivating_stake,
            authority: accounts.bond,
            lamports: split_lamports,
        },
        deactivation: StakeDeactivation {
            stake_account: accounts.deactivating_stake,
            authority: accounts.bond,
        },
    }
}

/// The end of a cycle: `lamports` are withdrawn from the cooling account into
/// the bond record, on the bond's authority.
pub open spec fn withdraw_cooled(accounts: ReserveAccounts, lamports: u64) -> RebalanceAction {
    RebalanceAction::Withdraw {
        withdrawal: StakeWithdrawal {
            stake_account: accounts.deactivating_stake,
            authority: accounts.bond,
            to: accounts.bond,
            lamports,
        },
    }
}

/// What one round does for a need that is not zero, by the status of the
/// cooling account.
pub open spec fn rebalance_for_status(
    status: StakeStatus,
    lamports_to_unstake: u64,
    minimum_delegation: u64,
    pools: CollateralPools,
    stake_rent_exempt: u64,
    accounts: ReserveAccounts,
) -> Result<RebalanceAction, BondError> {
    match status {
        StakeStatus::Empty => {
            let clamped = clamped_unstake(lamports_to_unstake, minimum_delegation);
            if pools.active < clamped {
                Err(BondError::MathOverflow)
            } else {
                Ok(
                    begin_unstake(
                        accounts,
                        stake_rent_exempt,
                        split_amount(clamped, pools.active, minimum_delegation),
                    ),
                )
            }
        },
        StakeStatus::Inactive => Ok(withdraw_cooled(accounts, pools.deactivating)),
        StakeStatus::Uninitialized => Err(BondError::InvalidStakeState),
        StakeStatus::Activating => Err(BondError::InvalidStakeState),
        StakeStatus::FullyActive => Err(BondError::InvalidStakeState),
        StakeStatus::Deactivating => Err(BondError::InvalidStakeState),
    }
}

/// What one round of rebalancing decides, given the staking subsystem's answer
/// on its minimum delegation.
pub open spec fn reserve_update(
    ctx: UpdateBondReserves,
    minimum_delegation: Option<(Pubkey, Vec<u8>)>,
) -> Result<RebalanceAction, InstructionError> {
    match unstake_need(ctx) {
        Err(e) => Err(InstructionError::Bond(e)),
        Ok(need) => {
            if need == 0 {
                Ok(RebalanceAction::Nothing)
            } else {
                match minimum_stake_amount(minimum_delegation) {
                    Err(e) => Err(e),
                    Ok(minimum) => match decoded_stake_history(ctx.stake_history_data@) {
                        None => Err(InstructionError::Bond(BondError::InvalidStakeState)),
                        Some(entries) => match stake_status(
                            ctx.deactivating_stake_data@,
                            ctx.epoch,
                            entries,
                        ) {
                            Err(e) => Err(e),
                            Ok(status) => match rebalance_for_status(
                                status,
                                need,
                                minimum,
                                ctx.pools,
                                ctx.stake_rent_exempt,
                                ctx.accounts(),
                            ) {
                                Err(e) => Err(InstructionError::Bond(e)),
                                Ok(action) => Ok(action),
                            },
                        },
                    },
                }
            }
        },
    }
}

/// What the collateral is after an action has been carried out by the staking
/// subsystem: a split moves value from the active stake into the cooling
/// account, which then cools down; a withdrawal moves it on into the bond
/// record, and a cooling account left without balance ceases to exist.
pub open spec fn rebalanced(state: ReserveState, action: RebalanceAction) -> Result<
    ReserveState,
    BondError,
> {
    match action {
        RebalanceAction::Nothing => Ok(state),
        RebalanceAction::BeginUnstake { layout, rent, split, deactivation } => {
            if split.lamports > state.pools.active || state.pools.deactivating + rent.lamports
                + split.lamports > u64::MAX {
                Err(BondError::MathOverflow)
            } else {
                Ok(
                    ReserveState {
                        pools: CollateralPools {
                            active: (state.pools.active - split.lamports) as u64,
                            deactivating: (state.pools.deactivating + rent.lamports
                                + split.lamports) as u64,
                            bond_record_balance: state.pools.bond_record_balance,
                            rent_exempt_minimum: state.pools.rent_exempt_minimum,
                        },
                        cooling: StakeStatus::Deactivating,
                    },
                )
            }
        },
        RebalanceAction::Withdraw { withdrawal } => {
            if withdrawal.lamports > state.pools.deactivating || state.pools.bond_record_balance
                + withdrawal.lamports > u64::MAX {
                Err(BondError::MathOverflow)
            } else {
                Ok(
                    ReserveState {
                        pools: CollateralPools {
                            active: state.pools.active,
                            deactivating: (state.pools.deactivating - withdrawal.lamports) as u64,
                            bond_record_balance: (state.pools.bond_record_balance
                                + withdrawal.lamports) as u64,
                            rent_exempt_minimum: state.pools.rent_exempt_minimum,
                        },
                        cooling: if withdrawal.lamports == state.pools.deactivating {
                            StakeStatus::Empty
                        } else {
                            state.cooling
                        },
                    },
                )
            }
        },
    }
}

/// What the collateral is once the staking subsystem has let the cooling
/// account cool down: the balances stand, a cooling account becomes inactive.
pub open spec fn cooled_down(state: ReserveState) -> ReserveState {
    ReserveState {
        pools: state.pools,
        cooling: if state.cooling == StakeStatus::Deactivating {
            StakeStatus::Inactive
        } else {
            state.cooling
        },
    }
}

impl ReserveState {
    /// The bond record holds at least what keeps it alive, and the three pools
    /// together with what a new cooling account costs fit in 64 bits.
    pub open spec fn wf(&self, stake_rent_exempt: u64) -> bool {
        &&& self.pools.bond_record_balance >= self.pools.rent_exempt_minimum
        &&& self.pools.active + self.pools.deactivating + self.pools.bond_record_balance
            + stake_rent_exempt <= u64::MAX
    }

    /// Carries out an action on the balances; `MathOverflow` where a balance
    /// would leave the 64-bit range or fall below zero.
    pub fn apply(&self, action: &RebalanceAction) -> (next: Result<ReserveState, BondError>)
        ensures
            next == rebalanced(*self, *action),
    {
        match action {
            RebalanceAction::Nothing => Ok(*self),
            RebalanceAction::BeginUnstake { layout, rent, split, deactivation } => {
                let active: u64 = match self.pools.active.checked_sub(split.lamports) {
                    Some(a) => a,
                    None => {
                        return Err(BondError::MathOverflow);
                    },
                };
                let funded: u64 = match self.pools.deactivating.checked_add(rent.lamports) {
                    Some(f) => f,
                    None => {
                        return Err(BondError::MathOverflow);
                    },
                };
                let deactivating: u64 = match funded.checked_add(split.lamports) {
                    Some(d) => d,
                    None => {
                        return Err(BondError::MathOverflow);
                    },
                };
                Ok(
                    ReserveState {
                        pools: CollateralPools {
                            active,
                            deactivating,
                            bond_record_balance: self.pools.bond_record_balance,
                            rent_exempt_minimum: self.pools.rent_exempt_minimum,
                        },
                        cooling: StakeStatus::Deactivating,
                    },
                )
            },
            RebalanceAction::Withdraw { withdrawal } => {
                let deactivating: u64 = match self.pools.deactivating.checked_sub(
                    withdrawal.lamports,
                ) {
                    Some(d) => d,
                    None => {
                        return Err(BondError::MathOverflow);
                    },
                };
                let bond_record_balance: u64 = match self.pools.bond_record_balance.checked_add(
                    withdrawal.lamports,
                ) {
                    Some(b) => b,
                    None => {
                        return Err(BondError::MathOverflow);
                    },
                };
                Ok(
                    ReserveState {
                        pools: CollateralPools {
                            active: self.pools.active,
                            deactivating,
                            bond_record_balance,
                            rent_exempt_minimum: self.pools.rent_exempt_minimum,
                        },
                        cooling: if deactivating == 0 {
                            StakeStatus::Empty
                        } else {
                            self.cooling
                        },
                    },
                )
            },
        }
    }

    /// Lets the cooling account cool down.
    pub fn cool_down(&self) -> (next: ReserveState)
        ensures
            next == cooled_down(*self),
    {
        ReserveState {
            pools: self.pools,
            cooling: match self.cooling {
                StakeStatus::Deactivating => StakeStatus::Inactive,
                other => other,
            },
        }
    }
}

/// Whether a cycle can start from `state`: the cooling account is empty,
/// something needs to leave the stake, the active stake holds the raised need,
/// and the share of the global pool's tokens can still be computed in 64 bits
/// once the pools hold what the global pool pays into the cooling account.
pub open spec fn cycle_can_start(
    state: ReserveState,
    supply: u64,
    gcp_tokens: u64,
    minimum_delegation: u64,
    stake_rent_exempt: u64,
    accounts: ReserveAccounts,
) -> bool {
    &&& state.wf(stake_rent_exempt)
    &&& state.cooling == StakeStatus::Empty
    &&& lamports_needed(state.pools, supply, gcp_tokens) is Ok
    &&& lamports_needed(state.pools, supply, gcp_tokens)->Ok_0 != 0
    &&& user_share_fits((state.pools.total() + stake_rent_exempt) as u64, supply, gcp_tokens)
    &&& rebalance_for_status(
        StakeStatus::Empty,
        lamports_needed(state.pools, supply, gcp_tokens)->Ok_0,
        minimum_delegation,
        state.pools,
        stake_rent_exempt,
        accounts,
    ) is Ok
}

/// The round that starts a cycle from `state`.
pub open spec fn first_round(
    state: ReserveState,
    supply: u64,
    gcp_tokens: u64,
    minimum_delegation: u64,
    stake_rent_exempt: u64,
    accounts: ReserveAccounts,
) -> RebalanceAction {
    rebalance_for_status(
        StakeStatus::Empty,
        lamports_needed(state.pools, supply, gcp_tokens)->Ok_0,
        minimum_delegation,
        state.pools,
        stake_rent_exempt,
        accounts,
    )->Ok_0
}

/// What the collateral is after a full cycle that starts with `begin`: the
/// split, the cooling down, and the withdrawal of the cooling account's whole
/// balance.
pub open spec fn after_cycle(
    state: ReserveState,
    begin: RebalanceAction,
    accounts: ReserveAccounts,
) -> ReserveState {
    let cooled = cooled_down(rebalanced(state, begin)->Ok_0);
    rebalanced(cooled, withdraw_cooled(accounts, cooled.pools.deactivating))->Ok_0
}

/// A round that finds nothing to unstake moves nothing: every pool and the
/// cooling account's status stay as they were.
pub proof fn lemma_no_need_changes_nothing(
    ctx: UpdateBondReserves,
    minimum_delegation: Option<(Pubkey, Vec<u8>)>,
    state: ReserveState,
)
    requires
        unstake_need(ctx) == Ok::<u64, BondError>(0),
    ensures
        reserve_update(ctx, minimum_delegation) == Ok::<RebalanceAction, InstructionError>(
            RebalanceAction::Nothing,
        ),
        rebalanced(state, RebalanceAction::Nothing) == Ok::<ReserveState, BondError>(state),
{
}

/// A full cycle returns the cooling account to `Empty` and raises the liquid
/// reserve by exactly what was withdrawn, with nothing lost.
///
/// From an empty cooling account and a need that is not zero, the round
/// creates the account and splits stake into it. Once that stake has cooled
/// down the need still stands, and the next round withdraws the account's whole
/// balance: what was split, and what the global pool paid to keep the account
/// alive. All of it arrives in the liquid reserve; the active stake is lower
/// by what was split.
pub proof fn lemma_rebalance_cycle(
    state: ReserveState,
    supply: u64,
    gcp_tokens: u64,
    minimum_delegation: u64,
    stake_rent_exempt: u64,
    accounts: ReserveAccounts,
)
    requires
        cycle_can_start(
            state,
            supply,
            gcp_tokens,
            minimum_delegation,
            stake_rent_exempt,
            accounts,
        ),
    ensures
        ({
            let need = lamports_needed(state.pools, supply, gcp_tokens)->Ok_0;
            let begin = first_round(
                state,
                supply,
                gcp_tokens,
                minimum_delegation,
                stake_rent_exempt,
                accounts,
            );
            let split = rebalanced(state, begin);
            &&& begin is BeginUnstake
            &&& split is Ok
            &&& split->Ok_0.cooling == StakeStatus::Deactivating
            &&& ({
                let cooled = cooled_down(split->Ok_0);
                let need_again = lamports_needed(cooled.pools, supply, gcp_tokens);
                &&& cooled.cooling == StakeStatus::Inactive
                &&& need_again is Ok
                &&& need_again->Ok_0 >= need
                &&& ({
                    let withdraw = rebalance_for_status(
                        StakeStatus::Inactive,
                        need_again->Ok_0,
                        minimum_delegation,
                        cooled.pools,
                        stake_rent_exempt,
                        accounts,
                    );
                    &&& withdraw == Ok::<RebalanceAction, BondError>(
                        withdraw_cooled(accounts, cooled.pools.deactivating),
                    )
                    &&& ({
                        let last = rebalanced(cooled, withdraw->Ok_0);
                        &&& last is Ok
                        &&& last->Ok_0 == after_cycle(state, begin, accounts)
                        &&& last->Ok_0.cooling == StakeStatus::Empty
                        &&& last->Ok_0.pools.deactivating == 0
                        &&& last->Ok_0.pools.liquid() == state.pools.liquid()
                            + cooled.pools.deactivating
                        &&& cooled.pools.deactivating == state.pools.deactivating
                            + stake_rent_exempt + begin->split.lamports
                        &&& last->Ok_0.pools.active == state.pools.active - begin->split.lamports
                        &&& last->Ok_0.pools.total() == state.pools.total() + stake_rent_exempt
                    })
                })
            })
        }),
{
    let total: u64 = state.pools.total() as u64;
    let raised: u64 = (state.pools.total() + stake_rent_exempt) as u64;
    lemma_user_share_monotonic(total, raised, supply, gcp_tokens);
}

/// A full cycle makes the bond solvent towards the global pool: afterwards the
/// liquid reserve covers the share of the pool's claim tokens, and nothing is
/// left to unstake. This is stated for a global pool that holds no more claim
/// tokens than are outstanding.
pub proof fn lemma_cycle_covers_the_need(
    state: ReserveState,
    supply: u64,
    gcp_tokens: u64,
    minimum_delegation: u64,
    stake_rent_exempt: u64,
    accounts: ReserveAccounts,
)
    requires
        cycle_can_start(
            state,
            supply,
            gcp_tokens,
            minimum_delegation,
            stake_rent_exempt,
            accounts,
        ),
        gcp_tokens <= supply,
    ensures
        ({
            let begin = first_round(
                state,
                supply,
                gcp_tokens,
                minimum_delegation,
                stake_rent_exempt,
                accounts,
            );
            let end = after_cycle(state, begin, accounts);
            &&& end.cooling == StakeStatus::Empty
            &&& user_share(end.pools.total() as u64, supply, gcp_tokens) <= end.pools.liquid()
            &&& lamports_needed(end.pools, supply, gcp_tokens) == Ok::<u64, BondError>(0)
        }),
{
    lemma_rebalance_cycle(
        state,
        supply,
        gcp_tokens,
        minimum_delegation,
        stake_rent_exempt,
        accounts,
    );
    lemma_user_share_of_added_value(
        state.pools.total() as u64,
        stake_rent_exempt,
        supply,
        gcp_tokens,
    );
}

/// After a full cycle the counterparty desk is served: a redemption of the
/// global pool's claim tokens against the matured bond finds the liquid
/// reserve sufficient and pays exactly their share.
pub proof fn lemma_cycle_funds_counter_party(
    state: ReserveState,
    minimum_delegation: u64,
    stake_rent_exempt: u64,
    accounts: ReserveAccounts,
    desk: CounterPartyRedeem,
)
    requires
        cycle_can_start(
            state,
            desk.corcoin_mint.supply,
            desk.gcp_corcoin_account.amount,
            minimum_delegation,
            stake_rent_exempt,
            accounts,
        ),
        desk.bond.matured_at(desk.now),
        desk.gcp_corcoin_account.amount <= desk.corcoin_mint.supply,
        desk.pools == after_cycle(
            state,
            first_round(
                state,
                desk.corcoin_mint.supply,
                desk.gcp_corcoin_account.amount,
                minimum_delegation,
                stake_rent_exempt,
                accounts,
            ),
            accounts,
        ).pools,
    ensures
        counter_party_redemption(desk, desk.gcp_corcoin_account.amount) is Ok,
        counter_party_redemption(desk, desk.gcp_corcoin_account.amount)->Ok_0.payout.lamports
            == user_share(
            desk.pools.total() as u64,
            desk.corcoin_mint.supply,
            desk.gcp_corcoin_account.amount,
        ),
        counter_party_redemption(
            desk,
            desk.gcp_corcoin_account.amount,
        )->Ok_0.corcoin_balance_after == 0,
{
    lemma_cycle_covers_the_need(
        state,
        desk.corcoin_mint.supply,
        desk.gcp_corcoin_account.amount,
        minimum_delegation,
        stake_rent_exempt,
        accounts,
    );
    lemma_rebalance_cycle(
        state,
        desk.corcoin_mint.supply,
        desk.gcp_corcoin_account.amount,
        minimum_delegation,
        stake_rent_exempt,
        accounts,
    );
}

/// No round loses value: what leaves one pool arrives in another.
///
/// A split keeps the liquid reserve and raises the sum of the pools by what
/// the global pool pays into the cooling account. A withdrawal keeps the sum
/// and the active stake, and raises the liquid reserve by what it takes out of
/// the cooling account.
pub proof fn lemma_rebalance_keeps_value(state: ReserveState, action: RebalanceAction)
    requires
        state.pools.bond_record_balance >= state.pools.rent_exempt_minimum,
        rebalanced(state, action) is Ok,
    ensures
        ({
            let next = rebalanced(state, action)->Ok_0;
            match action {
                RebalanceAction::Nothing => next == state,
                RebalanceAction::BeginUnstake { layout, rent, split, deactivation } => {
                    &&& next.pools.total() == state.pools.total() + rent.lamports
                    &&& next.pools.liquid() == state.pools.liquid()
                    &&& next.pools.active + split.lamports == state.pools.active
                },
                RebalanceAction::Withdraw { withdrawal } => {
                    &&& next.pools.total() == state.pools.total()
                    &&& next.pools.liquid() == state.pools.liquid() + withdrawal.lamports
                    &&& next.pools.active == state.pools.active
                    &&& next.pools.deactivating + withdrawal.lamports == state.pools.deactivating
                },
            }
        }),
{
}

/// Works out what must leave the stake.
///
/// Before the maturity there is no rebalancing (`BondNotMatured`). With no
/// claim token in the global pool nothing is needed. Otherwise the need is the
/// share of those tokens in the bond's value, less the liquid reserve, and
/// never below zero.
pub fn lamports_to_unstake(ctx: &UpdateBondReserves) -> (need: Result<u64, BondError>)
    ensures
        need == unstake_need(*ctx),
{
    if !(ctx.now >= ctx.bond.maturity_timestamp) {
        return Err(BondError::BondNotMatured);
    }
    let gcp_corcoin_balance: u64 = ctx.gcp_corcoin_account.amount;
    if gcp_corcoin_balance == 0 {
        return Ok(0);
    }
    let liquid_reserve_lamports: u64 = ctx.pools.liquid_reserve();
    let total_bond_value: u64 = match ctx.pools.total_value() {
        Ok(v) => v,
        Err(e) => {
            return Err(e);
        },
    };
    let lamports_needed_for_counter_party: u64 = match calculate_user_share(
        total_bond_value,
        ctx.corcoin_mint.supply,
        gcp_corcoin_balance,
    ) {
        Ok(s) => s,
        Err(e) => {
            return Err(e);
        },
    };
    Ok(lamports_needed_for_counter_party.saturating_sub(liquid_reserve_lamports))
}

/// Decides one round for a need that is not zero, by the status of the
/// cooling account.
///
/// From `Empty`, the need is raised to the minimum delegation and split out of
/// the active stake, or the whole active stake where the remainder would be
/// neither nothing nor a full minimum delegation; `MathOverflow` where the
/// active stake holds less than the raised need. From `Inactive`, the cooling
/// account's whole balance is withdrawn. In every other status a cycle is
/// under way or the account is corrupt: `InvalidStakeState`.
pub fn plan_rebalance(
    status: StakeStatus,
    lamports_to_unstake: u64,
    minimum_delegation: u64,
    pools: &CollateralPools,
    stake_rent_exempt: u64,
    accounts: &ReserveAccounts,
) -> (action: Result<RebalanceAction, BondError>)
    ensures
        action == rebalance_for_status(
            status,
            lamports_to_unstake,
            minimum_delegation,
            *pools,
            stake_rent_exempt,
            *accounts,
        ),
{
    match status {
        StakeStatus::Empty => {
            let stake_to_split: u64 = if lamports_to_unstake >= minimum_delegation {
                lamports_to_unstake
            } else {
                minimum_delegation
            };
            let active_stake_balance: u64 = pools.active;
            let remaining_after_split: u64 = match active_stake_balance.checked_sub(
                stake_to_split,
            ) {
                Some(r) => r,
                None => {
                    return Err(BondError::MathOverflow);
                },
            };
            let gcp_share: u64 = if remaining_after_split < minimum_delegation
                && remaining_after_split > 0 {
                active_stake_balance
            } else {
                stake_to_split
            };
            Ok(
                RebalanceAction::BeginUnstake {
                    layout: stake_create(accounts.deactivating_stake),
                    rent: system_transfer(
                        accounts.gcp,
                        accounts.deactivating_stake,
                        stake_rent_exempt,
                    ),
                    split: stake_split(
                        accounts.stake_account,
                        accounts.deactivating_stake,
                        accounts.bond,
                        gcp_share,
                    ),
                    deactivation: stake_deactivate(accounts.deactivating_stake, accounts.bond),
                },
            )
        },
        StakeStatus::Uninitialized => Err(BondError::InvalidStakeState),
        StakeStatus::Inactive => Ok(
            RebalanceAction::Withdraw {
                withdrawal: stake_withdraw(
                    accounts.deactivating_stake,
                    accounts.bond,
                    accounts.bond,
                    pools.deactivating,
                ),
            },
        ),
        StakeStatus::Activating | StakeStatus::FullyActive | StakeStatus::Deactivating => Err(
            BondError::InvalidStakeState,
        ),
    }
}

/// Decides one round of rebalancing.
///
/// Where nothing needs to leave the stake, nothing is done and neither the
/// minimum delegation nor the cooling account is looked at. Otherwise
/// `minimum_delegation`, what the ledger holds after the staking subsystem was
/// asked for its minimum delegation, is read; the activation schedule is
/// decoded (`InvalidStakeState` where it cannot be); the cooling account's
/// status at the current epoch is worked out; and the round is decided by that
/// status.
pub fn handler(ctx: &UpdateBondReserves, minimum_delegation: Option<(Pubkey, Vec<u8>)>) -> (action:
    Result<RebalanceAction, InstructionError>)
    ensures
        action == reserve_update(*ctx, minimum_delegation),
        unstake_need(*ctx) == Ok::<u64, BondError>(0) ==> action == Ok::<
            RebalanceAction,
            InstructionError,
        >(RebalanceAction::Nothing),
{
    let need: u64 = match lamports_to_unstake(ctx) {
        Ok(n) => n,
        Err(e) => {
            return Err(InstructionError::Bond(e));
        },
    };
    if need == 0 {
        return Ok(RebalanceAction::Nothing);
    }
    let minimum_stake_account_amt: u64 = match get_minimum_stake_amount(minimum_delegation) {
        Ok(m) => m,
        Err(e) => {
            return Err(e);
        },
    };
    let stake_history = match decode_stake_history(ctx.stake_history_data.as_slice()) {
        Some(h) => h,
        None => {
            return Err(InstructionError::Bond(BondError::InvalidStakeState));
        },
    };
    let deactivating_stake_status: StakeStatus = match get_stake_status(
        ctx.deactivating_stake_data.as_slice(),
        ctx.epoch,
        &stake_history,
    ) {
        Ok(s) => s,
        Err(e) => {
            return Err(e);
        },
    };
    let accounts = ctx.reserve_accounts();
    match plan_rebalance(
        deactivating_stake_status,
        need,
        minimum_stake_account_amt,
        &ctx.pools,
        ctx.stake_rent_exempt,
        &accounts,
    ) {
        Ok(action) => Ok(action),
        Err(e) => Err(InstructionError::Bond(e)),
    }
}

} // verus!
