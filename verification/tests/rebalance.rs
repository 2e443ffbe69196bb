use anchor_lang::solana_program::stake::stake_flags::StakeFlags;
use anchor_lang::solana_program::stake::state::{Delegation, Meta, Stake, StakeStateV2};
use anchor_lang::solana_program::stake_history::{StakeHistory, StakeHistoryEntry};
use anchor_lang::AnchorSerialize;
use corcoin::error::{BondError, InstructionError};
use corcoin::instructions::admin_withdraw::{self, AdminWithdraw};
use corcoin::instructions::counter_party_redeem::{self, CounterPartyRedeem};
use corcoin::instructions::create_bond::{self, CreateBond};
use corcoin::instructions::initialize::{self, Initialize};
use corcoin::instructions::redeem_lamports::{self, RedeemLamports};
use corcoin::instructions::update_bond_reserves::{
    self, lamports_to_unstake, plan_rebalance, RebalanceAction, ReserveAccounts, ReserveState,
    UpdateBondReserves,
};
use corcoin::program;
use corcoin::state::{Bond, Config, Mint, Pubkey, TokenAccount};
use corcoin::utils::bond::CollateralPools;
use corcoin::utils::stake::{
    StakeAccountLayout, StakeDeactivation, StakeSplit, StakeStatus, StakeWithdrawal,
    STAKE_PROGRAM_ID,
};
use corcoin::utils::system::LamportTransfer;

const MATURITY: i64 = 1_700_432_000;
const STAKE_RENT: u64 = 2_282_880;
const BOND_RENT: u64 = 1_955_760;

fn key(n: u8) -> Pubkey {
    Pubkey::new([n; 32])
}

fn bond() -> Bond {
    Bond {
        authority: key(1),
        validator: key(2),
        stake_account: key(3),
        maturity_timestamp: MATURITY,
        creation_timestamp: 1_700_000_000,
        corcoin_mint: key(5),
        bump: 254,
    }
}

fn pools(active: u64, deactivating: u64, liquid: u64) -> CollateralPools {
    CollateralPools {
        active,
        deactivating,
        bond_record_balance: BOND_RENT + liquid,
        rent_exempt_minimum: BOND_RENT,
    }
}

fn reserve_accounts() -> ReserveAccounts {
    ReserveAccounts {
        stake_account: key(3),
        deactivating_stake: key(10),
        bond: key(4),
        gcp: key(7),
    }
}

fn begin_unstake(rent: u64, split: u64) -> RebalanceAction {
    RebalanceAction::BeginUnstake {
        layout: StakeAccountLayout {
            stake_account: key(10),
            space: 200,
            owner: Pubkey::new(STAKE_PROGRAM_ID),
        },
        rent: LamportTransfer { from: key(7), to: key(10), lamports: rent },
        split: StakeSplit {
            source: key(3),
            destination: key(10),
            authority: key(4),
            lamports: split,
        },
        deactivation: StakeDeactivation { stake_account: key(10), authority: key(4) },
    }
}

fn withdraw_all(lamports: u64) -> RebalanceAction {
    RebalanceAction::Withdraw {
        withdrawal: StakeWithdrawal {
            stake_account: key(10),
            authority: key(4),
            to: key(4),
            lamports,
        },
    }
}

fn minimum(amount: u64) -> Option<(Pubkey, Vec<u8>)> {
    Some((Pubkey::new(STAKE_PROGRAM_ID), amount.to_le_bytes().to_vec()))
}

fn no_history() -> Vec<u8> {
    bincode::serialize(&StakeHistory::default()).unwrap()
}

fn cooling_data(stake: u64, activation_epoch: u64, deactivation_epoch: u64) -> Vec<u8> {
    let delegation = Delegation {
        stake,
        activation_epoch,
        deactivation_epoch,
        ..Delegation::default()
    };
    let state = StakeStateV2::Stake(
        Meta::default(),
        Stake { delegation, credits_observed: 0 },
        StakeFlags::empty(),
    );
    let mut data = state.try_to_vec().unwrap();
    data.resize(200, 0);
    data
}

fn accounts(gcp_tokens: u64, supply: u64, pools: CollateralPools, cooling: Vec<u8>) -> UpdateBondReserves {
    UpdateBondReserves {
        now: MATURITY,
        epoch: 702,
        bond: bond(),
        bond_key: key(4),
        corcoin_mint: Mint { key: key(5), supply },
        gcp: key(7),
        gcp_corcoin_account: TokenAccount {
            key: key(8),
            owner: key(7),
            mint: key(5),
            amount: gcp_tokens,
        },
        stake_account: key(3),
        deactivating_stake: key(10),
        pools,
        stake_rent_exempt: STAKE_RENT,
        deactivating_stake_data: cooling,
        stake_history_data: no_history(),
    }
}

#[test]
fn need_is_the_pools_share_less_the_liquid_reserve() {
    let ctx = accounts(300, 1000, pools(5000, 3000, 2000), vec![]);
    assert_eq!(lamports_to_unstake(&ctx), Ok(1000));
    let covered = accounts(200, 1000, pools(5000, 3000, 2000), vec![]);
    assert_eq!(lamports_to_unstake(&covered), Ok(0));
    let more_than_covered = accounts(100, 1000, pools(5000, 3000, 2000), vec![]);
    assert_eq!(lamports_to_unstake(&more_than_covered), Ok(0));
    let no_tokens = accounts(0, 1000, pools(5000, 3000, 0), vec![]);
    assert_eq!(lamports_to_unstake(&no_tokens), Ok(0));
    let no_supply = accounts(300, 0, pools(5000, 3000, 0), vec![]);
    assert_eq!(lamports_to_unstake(&no_supply), Ok(0));
}

#[test]
fn need_is_not_computed_before_maturity() {
    let mut ctx = accounts(300, 1000, pools(5000, 3000, 2000), vec![]);
    ctx.now = MATURITY - 1;
    assert_eq!(lamports_to_unstake(&ctx), Err(BondError::BondNotMatured));
    assert_eq!(
        update_bond_reserves::handler(&ctx, minimum(100)),
        Err(InstructionError::Bond(BondError::BondNotMatured))
    );
    let mut idle = accounts(0, 1000, pools(5000, 3000, 2000), vec![]);
    idle.now = MATURITY - 1;
    assert_eq!(lamports_to_unstake(&idle), Err(BondError::BondNotMatured));
}

#[test]
fn need_reports_overflow() {
    let ctx = accounts(300, 1000, pools(u64::MAX, 1, 0), vec![]);
    assert_eq!(lamports_to_unstake(&ctx), Err(BondError::MathOverflow));
    let wide = accounts(300, 1000, pools(u64::MAX / 2, 0, 0), vec![]);
    assert_eq!(lamports_to_unstake(&wide), Err(BondError::MathOverflow));
    let silent = accounts(0, 1000, pools(u64::MAX, 1, 0), vec![]);
    assert_eq!(lamports_to_unstake(&silent), Ok(0));
}

#[test]
fn round_without_need_changes_nothing() {
    let covered = accounts(200, 1000, pools(5000, 3000, 2000), vec![9; 200]);
    assert_eq!(
        update_bond_reserves::handler(&covered, None),
        Ok(RebalanceAction::Nothing)
    );
    let mut no_tokens = accounts(0, 1000, pools(5000, 3000, 0), vec![]);
    no_tokens.stake_history_data = vec![1, 2, 3];
    assert_eq!(
        update_bond_reserves::handler(&no_tokens, None),
        Ok(RebalanceAction::Nothing)
    );
    for cooling in [
        StakeStatus::Empty,
        StakeStatus::Uninitialized,
        StakeStatus::Inactive,
        StakeStatus::Activating,
        StakeStatus::FullyActive,
        StakeStatus::Deactivating,
    ] {
        let state = ReserveState { pools: covered.pools, cooling };
        assert_eq!(state.apply(&RebalanceAction::Nothing), Ok(state));
    }
}

#[test]
fn empty_cooling_account_starts_a_cycle() {
    let p = pools(5000, 0, 0);
    assert_eq!(
        plan_rebalance(StakeStatus::Empty, 1000, 100, &p, STAKE_RENT, &reserve_accounts()),
        Ok(begin_unstake(STAKE_RENT, 1000))
    );
    assert_eq!(
        plan_rebalance(StakeStatus::Empty, 40, 100, &p, STAKE_RENT, &reserve_accounts()),
        Ok(begin_unstake(STAKE_RENT, 100))
    );
    assert_eq!(
        plan_rebalance(StakeStatus::Empty, 4950, 100, &p, STAKE_RENT, &reserve_accounts()),
        Ok(begin_unstake(STAKE_RENT, 5000))
    );
    assert_eq!(
        plan_rebalance(StakeStatus::Empty, 4900, 100, &p, STAKE_RENT, &reserve_accounts()),
        Ok(begin_unstake(STAKE_RENT, 4900))
    );
    assert_eq!(
        plan_rebalance(StakeStatus::Empty, 5000, 100, &p, STAKE_RENT, &reserve_accounts()),
        Ok(begin_unstake(STAKE_RENT, 5000))
    );
    assert_eq!(
        plan_rebalance(StakeStatus::Empty, 5001, 100, &p, STAKE_RENT, &reserve_accounts()),
        Err(BondError::MathOverflow)
    );
    assert_eq!(
        plan_rebalance(StakeStatus::Empty, 1, 5001, &p, STAKE_RENT, &reserve_accounts()),
        Err(BondError::MathOverflow)
    );
}

#[test]
fn inactive_cooling_account_is_withdrawn_whole() {
    let p = pools(5000, 1234, 0);
    assert_eq!(
        plan_rebalance(StakeStatus::Inactive, 1000, 100, &p, STAKE_RENT, &reserve_accounts()),
        Ok(withdraw_all(1234))
    );
    assert_eq!(
        plan_rebalance(StakeStatus::Inactive, 1, 100_000, &p, STAKE_RENT, &reserve_accounts()),
        Ok(withdraw_all(1234))
    );
}

#[test]
fn cycle_under_way_is_not_disturbed() {
    let p = pools(5000, 1234, 0);
    for status in [
        StakeStatus::Activating,
        StakeStatus::FullyActive,
        StakeStatus::Deactivating,
        StakeStatus::Uninitialized,
    ] {
        assert_eq!(
            plan_rebalance(status, 1000, 100, &p, STAKE_RENT, &reserve_accounts()),
            Err(BondError::InvalidStakeState)
        );
    }
}

#[test]
fn round_reads_the_cooling_account_from_the_ledger() {
    let empty = accounts(300, 1000, pools(5000, 0, 0), vec![]);
    assert_eq!(
        update_bond_reserves::handler(&empty, minimum(100)),
        Ok(begin_unstake(STAKE_RENT, 1500))
    );
    let inactive = accounts(300, 1000, pools(3500, 1500, 0), cooling_data(1500, 100, 700));
    assert_eq!(
        update_bond_reserves::handler(&inactive, minimum(100)),
        Ok(withdraw_all(1500))
    );
    let mut cooling = accounts(300, 1000, pools(3500, 1500, 0), cooling_data(1500, 100, 702));
    assert_eq!(
        update_bond_reserves::handler(&cooling, minimum(100)),
        Err(InstructionError::Bond(BondError::InvalidStakeState))
    );
    cooling.epoch = 701;
    assert_eq!(
        update_bond_reserves::handler(&cooling, minimum(100)),
        Err(InstructionError::Bond(BondError::InvalidStakeState))
    );
    let unwritten = accounts(300, 1000, pools(3500, 1500, 0), vec![0; 200]);
    assert_eq!(
        update_bond_reserves::handler(&unwritten, minimum(100)),
        Err(InstructionError::Bond(BondError::InvalidStakeState))
    );
}

#[test]
fn round_decodes_the_activation_schedule() {
    let mut schedule = StakeHistory::default();
    schedule.add(
        700,
        StakeHistoryEntry { effective: 4000, activating: 0, deactivating: 6000 },
    );
    let mut slow = accounts(300, 1000, pools(3500, 1500, 0), cooling_data(1500, 100, 700));
    slow.stake_history_data = bincode::serialize(&schedule).unwrap();
    assert_eq!(
        update_bond_reserves::handler(&slow, minimum(100)),
        Err(InstructionError::Bond(BondError::InvalidStakeState))
    );
    let mut fast_schedule = StakeHistory::default();
    fast_schedule.add(
        700,
        StakeHistoryEntry { effective: 6000, activating: 0, deactivating: 1500 },
    );
    let mut fast = accounts(300, 1000, pools(3500, 1500, 0), cooling_data(1500, 100, 700));
    fast.stake_history_data = bincode::serialize(&fast_schedule).unwrap();
    assert_eq!(
        update_bond_reserves::handler(&fast, minimum(100)),
        Ok(withdraw_all(1500))
    );
    let mut steep_schedule = StakeHistory::default();
    steep_schedule.add(
        650,
        StakeHistoryEntry { effective: u64::MAX, activating: 1, deactivating: 0 },
    );
    let mut steep = accounts(300, 1000, pools(3500, 1500, 0), cooling_data(1500, 100, 700));
    steep.stake_history_data = bincode::serialize(&steep_schedule).unwrap();
    assert_eq!(
        update_bond_reserves::handler(&steep, minimum(100)),
        Ok(withdraw_all(1500))
    );
    let mut overflowing_schedule = StakeHistory::default();
    overflowing_schedule.add(
        100,
        StakeHistoryEntry { effective: 4, activating: u64::MAX, deactivating: 0 },
    );
    overflowing_schedule.add(
        101,
        StakeHistoryEntry { effective: u64::MAX, activating: 1, deactivating: 0 },
    );
    let mut overflowing = accounts(
        300,
        1000,
        pools(3500, 1500, 0),
        cooling_data(1 << 63, 100, 700),
    );
    overflowing.stake_history_data = bincode::serialize(&overflowing_schedule).unwrap();
    assert_eq!(
        update_bond_reserves::handler(&overflowing, minimum(100)),
        Err(InstructionError::ArithmeticOverflow)
    );
}

#[test]
fn round_reports_what_it_cannot_read() {
    let empty = accounts(300, 1000, pools(5000, 0, 0), vec![]);
    assert_eq!(
        update_bond_reserves::handler(&empty, None),
        Err(InstructionError::InvalidInstructionData)
    );
    assert_eq!(
        update_bond_reserves::handler(&empty, Some((key(9), vec![0; 8]))),
        Err(InstructionError::IncorrectProgramId)
    );
    let mut torn = accounts(300, 1000, pools(5000, 0, 0), vec![]);
    torn.stake_history_data = vec![1, 2, 3];
    assert_eq!(
        update_bond_reserves::handler(&torn, minimum(100)),
        Err(InstructionError::Bond(BondError::InvalidStakeState))
    );
    let mut garbled = vec![0u8; 200];
    garbled[0] = 77;
    let corrupt = accounts(300, 1000, pools(5000, 0, 0), garbled);
    assert_eq!(
        update_bond_reserves::handler(&corrupt, minimum(100)),
        Err(InstructionError::InvalidAccountData)
    );
    let mut stranger = accounts(300, 1000, pools(5000, 0, 0), vec![]);
    stranger.stake_account = key(4);
    assert_eq!(
        program::update_bond_reserves(&stranger, minimum(100)),
        Err(InstructionError::ConstraintViolated)
    );
    assert!(program::update_bond_reserves(&empty, minimum(100)).is_ok());
}

#[test]
fn full_cycle_returns_the_cooling_account_to_empty() {
    let start = ReserveState { pools: pools(5000, 0, 200), cooling: StakeStatus::Empty };
    let begin = plan_rebalance(start.cooling, 1000, 100, &start.pools, STAKE_RENT, &reserve_accounts()).unwrap();
    let split = start.apply(&begin).unwrap();
    assert_eq!(split.cooling, StakeStatus::Deactivating);
    assert_eq!(split.pools.active, 4000);
    assert_eq!(split.pools.deactivating, STAKE_RENT + 1000);
    assert_eq!(split.pools.liquid_reserve(), 200);
    assert_eq!(
        plan_rebalance(split.cooling, 1000, 100, &split.pools, STAKE_RENT, &reserve_accounts()),
        Err(BondError::InvalidStakeState)
    );
    let cooled = split.cool_down();
    assert_eq!(cooled.cooling, StakeStatus::Inactive);
    assert_eq!(cooled.pools, split.pools);
    let withdraw = plan_rebalance(cooled.cooling, 1000, 100, &cooled.pools, STAKE_RENT, &reserve_accounts()).unwrap();
    assert_eq!(withdraw, withdraw_all(STAKE_RENT + 1000));
    let end = cooled.apply(&withdraw).unwrap();
    assert_eq!(end.cooling, StakeStatus::Empty);
    assert_eq!(end.pools.deactivating, 0);
    assert_eq!(end.pools.active, 4000);
    assert_eq!(end.pools.liquid_reserve(), 200 + STAKE_RENT + 1000);
    assert_eq!(
        end.pools.total_value().unwrap(),
        start.pools.total_value().unwrap() + STAKE_RENT
    );
}

#[test]
fn applying_an_action_never_loses_value() {
    let state = ReserveState { pools: pools(5000, 10, 0), cooling: StakeStatus::Empty };
    assert_eq!(
        state.apply(&begin_unstake(0, 5001)),
        Err(BondError::MathOverflow)
    );
    assert_eq!(
        state.apply(&begin_unstake(u64::MAX, 1)),
        Err(BondError::MathOverflow)
    );
    assert_eq!(
        state.apply(&withdraw_all(11)),
        Err(BondError::MathOverflow)
    );
    let inactive = ReserveState { pools: pools(5000, 10, 0), cooling: StakeStatus::Inactive };
    let partial = inactive.apply(&withdraw_all(4)).unwrap();
    assert_eq!(partial.cooling, StakeStatus::Inactive);
    assert_eq!(partial.pools.deactivating, 6);
    assert_eq!(partial.pools.liquid_reserve(), 4);
    assert_eq!(state.cool_down(), state);
}

#[test]
fn redemption_waits_for_the_pool_to_be_replenished() {
    let start = CreateBond {
        now: 1_700_000_000,
        user: key(1),
        user_corcoin_account: key(6),
        gcp: key(7),
        validator_vote: key(2),
        stake_account: key(3),
        bond: key(4),
        bond_bump: 254,
        corcoin_mint: key(5),
        stake_rent_exempt: STAKE_RENT,
    };
    let created = create_bond::handler(&start, 4_000_000_000, MATURITY).unwrap();
    assert_eq!(created.fee.lamports, 40_000_000);
    assert_eq!(created.mint.amount, 3_960_000_000);
    assert_eq!(created.stake.lamports, 3_962_282_880);

    let supply = created.mint.amount;
    let holder_tokens = 1_980_000_000;
    let pool_tokens = supply - holder_tokens;
    let claim = supply / 2;
    let holder = |now: i64, supply: u64, pools: CollateralPools, gcp_lamports: u64| RedeemLamports {
        now,
        user: key(1),
        bond: created.bond,
        corcoin_mint: Mint { key: key(5), supply },
        user_corcoin_account: TokenAccount {
            key: key(6),
            owner: key(1),
            mint: key(5),
            amount: holder_tokens,
        },
        stake_account: key(3),
        pools,
        gcp: key(7),
        gcp_lamports,
    };
    let at_creation = pools(created.stake.lamports, 0, 0);

    assert_eq!(
        redeem_lamports::handler(&holder(MATURITY - 1, supply, at_creation, 0), claim),
        Err(BondError::BondNotMatured)
    );
    assert_eq!(
        redeem_lamports::handler(&holder(MATURITY, supply, at_creation, 0), claim),
        Err(BondError::InsufficientTokens)
    );
    assert_eq!(
        redeem_lamports::handler(&holder(MATURITY, supply, at_creation, STAKE_RENT), claim),
        Err(BondError::InsufficientTokens)
    );

    let mut gcp_lamports = STAKE_RENT;
    let mut state = ReserveState { pools: at_creation, cooling: StakeStatus::Empty };
    let first = accounts(pool_tokens, supply, state.pools, vec![]);
    assert_eq!(lamports_to_unstake(&first), Ok(1_981_141_440));
    let begin = update_bond_reserves::handler(&first, minimum(1_000_000)).unwrap();
    assert_eq!(
        begin,
        begin_unstake(STAKE_RENT, 1_981_141_440)
    );
    gcp_lamports -= STAKE_RENT;
    state = state.apply(&begin).unwrap().cool_down();
    assert_eq!(state.pools.active, 1_981_141_440);
    assert_eq!(state.pools.deactivating, 1_983_424_320);

    let second = accounts(
        pool_tokens,
        supply,
        state.pools,
        cooling_data(1_981_141_440, 100, 700),
    );
    let withdraw = update_bond_reserves::handler(&second, minimum(1_000_000)).unwrap();
    assert_eq!(withdraw, withdraw_all(1_983_424_320));
    state = state.apply(&withdraw).unwrap();
    assert_eq!(state.cooling, StakeStatus::Empty);
    assert_eq!(state.pools.liquid_reserve(), 1_983_424_320);

    let desk = CounterPartyRedeem {
        now: MATURITY,
        bond: created.bond,
        bond_key: key(4),
        corcoin_mint: Mint { key: key(5), supply },
        gcp: key(7),
        gcp_corcoin_account: TokenAccount {
            key: key(8),
            owner: key(7),
            mint: key(5),
            amount: pool_tokens,
        },
        stake_account: key(3),
        pools: state.pools,
    };
    let settled = counter_party_redeem::handler(&desk, pool_tokens).unwrap();
    assert_eq!(settled.payout.lamports, 1_982_282_880);
    assert_eq!(settled.corcoin_balance_after, 0);
    gcp_lamports += settled.payout.lamports;
    let mut after = state.pools;
    after.bond_record_balance -= settled.payout.lamports;
    let supply_after = supply - settled.burn.amount;
    assert_eq!(after.total_value(), Ok(1_982_282_880));

    let redeemed =
        redeem_lamports::handler(&holder(MATURITY, supply_after, after, gcp_lamports), claim)
            .unwrap();
    assert_eq!(redeemed.user_share, 1_982_282_880);
    assert_eq!(redeemed.fee_amount, 19_822_829);
    assert_eq!(redeemed.payout.lamports, redeemed.user_share - redeemed.fee_amount);
    assert_eq!(redeemed.payout.lamports, 1_962_460_051);
    assert_eq!(redeemed.burn.amount, claim);
    assert_eq!(redeemed.corcoin_balance_after, 0);
}

#[test]
fn admin_withdraws_any_amount() {
    let ctx = AdminWithdraw {
        config: Config { admin: key(9), gcp_bump: 250 },
        admin: key(9),
        gcp: key(7),
    };
    let withdrawn = admin_withdraw::handler(&ctx, 777);
    assert_eq!(withdrawn.transfer.lamports, 777);
    assert_eq!(withdrawn.transfer.from, key(7));
    assert_eq!(withdrawn.transfer.to, key(9));
    assert_eq!(withdrawn.gcp_bump, 250);
    assert_eq!(
        program::admin_withdraw(&ctx, u64::MAX).unwrap().transfer.lamports,
        u64::MAX
    );
    assert_eq!(program::admin_withdraw(&ctx, 0).unwrap().transfer.lamports, 0);
}

#[test]
fn only_the_admin_withdraws() {
    let ctx = AdminWithdraw {
        config: Config { admin: key(9), gcp_bump: 250 },
        admin: key(8),
        gcp: key(7),
    };
    assert!(!ctx.constraints_hold());
    assert_eq!(
        program::admin_withdraw(&ctx, 777),
        Err(InstructionError::ConstraintViolated)
    );
}

#[test]
fn initialization_records_the_admin() {
    let ctx = Initialize { initializer: key(1), gcp: key(7), gcp_bump: 251 };
    let initialized = initialize::handler(&ctx, key(9), 5_000_000_000);
    assert_eq!(initialized.config, Config { admin: key(9), gcp_bump: 251 });
    assert_eq!(initialized.seed.lamports, 5_000_000_000);
    assert_eq!(initialized.seed.from, key(1));
    assert_eq!(initialized.seed.to, key(7));
    assert_eq!(
        program::initialize(&ctx, key(9), 1).unwrap().config.admin,
        key(9)
    );
}
