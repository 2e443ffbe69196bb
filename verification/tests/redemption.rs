use corcoin::error::{BondError, InstructionError};
use corcoin::instructions::counter_party_redeem::{self, CounterPartyRedeem};
use corcoin::instructions::redeem_lamports::{
    self, calculate_amount_after_fee, validate_redemption_conditions, RedeemLamports,
};
use corcoin::instructions::redeem_stake::{
    self, create_destination_stake_account, get_bond_seeds, redeem_with_minimum,
    split_stake_account, transfer_stake_authorities, user_share_lamports,
    validate_stake_split_amounts, RedeemStake,
};
use corcoin::program;
use corcoin::state::{Bond, Mint, Pubkey, TokenAccount};
use corcoin::utils::bond::CollateralPools;
use corcoin::utils::stake::{StakeAuthorize, STAKE_PROGRAM_ID};

const MATURITY: i64 = 1_700_432_000;

fn key(n: u8) -> Pubkey {
    Pubkey::new([n; 32])
}

fn bond() -> Bond {
    Bond {
        authority: key(1),
        validator: key(2),
        stake_account: key(3),
        maturity_timestamp: MATURITY,
        creation_timestamp: 1_700_000_000,
        corcoin_mint: key(5),
        bump: 254,
    }
}

fn pools(active: u64, deactivating: u64, liquid: u64) -> CollateralPools {
    CollateralPools {
        active,
        deactivating,
        bond_record_balance: 1_955_760 + liquid,
        rent_exempt_minimum: 1_955_760,
    }
}

fn lamport_accounts(balance: u64, supply: u64, pools: CollateralPools, gcp: u64) -> RedeemLamports {
    RedeemLamports {
        now: MATURITY,
        user: key(1),
        bond: bond(),
        corcoin_mint: Mint { key: key(5), supply },
        user_corcoin_account: TokenAccount {
            key: key(6),
            owner: key(1),
            mint: key(5),
            amount: balance,
        },
        stake_account: key(3),
        pools,
        gcp: key(7),
        gcp_lamports: gcp,
    }
}

fn stake_accounts(balance: u64, supply: u64, pools: CollateralPools) -> RedeemStake {
    RedeemStake {
        now: MATURITY,
        user: key(1),
        bond: bond(),
        bond_key: key(4),
        corcoin_mint: Mint { key: key(5), supply },
        user_corcoin_account: TokenAccount {
            key: key(6),
            owner: key(1),
            mint: key(5),
            amount: balance,
        },
        stake_account: key(3),
        destination_stake_account: key(9),
        pools,
        stake_rent_exempt: 2_282_880,
    }
}

fn counter_party_accounts(gcp_tokens: u64, supply: u64, pools: CollateralPools) -> CounterPartyRedeem {
    CounterPartyRedeem {
        now: MATURITY,
        bond: bond(),
        bond_key: key(4),
        corcoin_mint: Mint { key: key(5), supply },
        gcp: key(7),
        gcp_corcoin_account: TokenAccount {
            key: key(8),
            owner: key(7),
            mint: key(5),
            amount: gcp_tokens,
        },
        stake_account: key(3),
        pools,
    }
}

fn minimum(amount: u64) -> Option<(Pubkey, Vec<u8>)> {
    Some((Pubkey::new(STAKE_PROGRAM_ID), amount.to_le_bytes().to_vec()))
}

#[test]
fn redemption_before_maturity_is_refused() {
    let b = bond();
    assert_eq!(
        validate_redemption_conditions(&b, MATURITY - 1, 10, 5),
        Err(BondError::BondNotMatured)
    );
    assert_eq!(validate_redemption_conditions(&b, MATURITY, 10, 5), Ok(()));
    assert_eq!(validate_redemption_conditions(&b, MATURITY + 1, 10, 10), Ok(()));
    assert_eq!(
        validate_redemption_conditions(&b, MATURITY - 1, 0, 0),
        Err(BondError::BondNotMatured)
    );
}

#[test]
fn redemption_needs_a_claim_within_the_balance() {
    let b = bond();
    assert_eq!(
        validate_redemption_conditions(&b, MATURITY, 0, 0),
        Err(BondError::InsufficientTokens)
    );
    assert_eq!(
        validate_redemption_conditions(&b, MATURITY, 10, 0),
        Err(BondError::InsufficientTokens)
    );
    assert_eq!(
        validate_redemption_conditions(&b, MATURITY, 10, 11),
        Err(BondError::InsufficientTokens)
    );
    assert_eq!(
        validate_redemption_conditions(&b, MATURITY, 0, 1),
        Err(BondError::InsufficientTokens)
    );
}

#[test]
fn amount_after_fee_deducts_one_percent_rounded_up() {
    assert_eq!(calculate_amount_after_fee(0), Ok(0));
    assert_eq!(calculate_amount_after_fee(1), Ok(0));
    assert_eq!(calculate_amount_after_fee(100), Ok(99));
    assert_eq!(calculate_amount_after_fee(101), Ok(99));
    assert_eq!(calculate_amount_after_fee(1_981_141_440), Ok(1_961_330_025));
    assert_eq!(
        calculate_amount_after_fee(u64::MAX),
        Err(BondError::MathOverflow)
    );
}

#[test]
fn lamport_redemption_pays_the_share_less_the_fee() {
    let ctx = lamport_accounts(600, 1000, pools(5000, 3000, 2000), 1_000_000);
    let redeemed = redeem_lamports::handler(&ctx, 250).unwrap();
    assert_eq!(redeemed.user_share, 2500);
    assert_eq!(redeemed.fee_amount, 25);
    assert_eq!(redeemed.payout.lamports, 2475);
    assert_eq!(redeemed.payout.from, key(7));
    assert_eq!(redeemed.payout.to, key(1));
    assert_eq!(redeemed.burn.amount, 250);
    assert_eq!(redeemed.burn.mint, key(5));
    assert_eq!(redeemed.burn.from, key(6));
    assert_eq!(redeemed.burn.authority, key(1));
    assert_eq!(redeemed.corcoin_balance_after, 350);
}

#[test]
fn lamport_redemption_share_rounds_down() {
    let ctx = lamport_accounts(3, 3, pools(1000, 0, 0), 1_000_000);
    let redeemed = redeem_lamports::handler(&ctx, 1).unwrap();
    assert_eq!(redeemed.user_share, 333);
    assert_eq!(redeemed.fee_amount, 4);
    assert_eq!(redeemed.payout.lamports, 329);
    assert_eq!(redeemed.corcoin_balance_after, 2);
}

#[test]
fn lamport_redemption_fails_without_pool_liquidity() {
    let ctx = lamport_accounts(600, 1000, pools(5000, 3000, 2000), 2474);
    assert_eq!(
        redeem_lamports::handler(&ctx, 250),
        Err(BondError::InsufficientTokens)
    );
    let exact = lamport_accounts(600, 1000, pools(5000, 3000, 2000), 2475);
    assert_eq!(redeem_lamports::handler(&exact, 250).unwrap().payout.lamports, 2475);
}

#[test]
fn lamport_redemption_reports_overflow() {
    let ctx = lamport_accounts(10, 10, pools(u64::MAX, 1, 0), 0);
    assert_eq!(
        redeem_lamports::handler(&ctx, 5),
        Err(BondError::MathOverflow)
    );
    let wide = lamport_accounts(10, 10, pools(u64::MAX / 2, 0, 0), 0);
    assert_eq!(
        redeem_lamports::handler(&wide, 5),
        Err(BondError::MathOverflow)
    );
}

#[test]
fn ten_sol_bond_overflows_on_half_the_supply() {
    let ctx = lamport_accounts(
        9_900_000_000,
        9_900_000_000,
        pools(9_902_282_880, 0, 0),
        u64::MAX,
    );
    assert_eq!(
        redeem_lamports::handler(&ctx, 4_950_000_000),
        Err(BondError::MathOverflow)
    );
}

#[test]
fn lamport_redemption_checks_the_accounts() {
    let mut ctx = lamport_accounts(600, 1000, pools(5000, 3000, 2000), 1_000_000);
    assert!(ctx.constraints_hold());
    assert_eq!(program::redeem_lamports(&ctx, 250).unwrap().payout.lamports, 2475);
    ctx.user = key(8);
    assert!(!ctx.constraints_hold());
    assert_eq!(
        program::redeem_lamports(&ctx, 250),
        Err(InstructionError::ConstraintViolated)
    );
    let mut other_mint = lamport_accounts(600, 1000, pools(5000, 3000, 2000), 1_000_000);
    other_mint.corcoin_mint.key = key(6);
    assert!(!other_mint.constraints_hold());
    let mut other_stake = lamport_accounts(600, 1000, pools(5000, 3000, 2000), 1_000_000);
    other_stake.stake_account = key(4);
    assert!(!other_stake.constraints_hold());
    let early = RedeemLamports { now: MATURITY - 1, ..lamport_accounts(1, 1, pools(1, 0, 0), 1) };
    assert_eq!(
        program::redeem_lamports(&early, 1),
        Err(InstructionError::Bond(BondError::BondNotMatured))
    );
}

#[test]
fn stake_split_must_respect_the_minimum_delegation() {
    assert_eq!(validate_stake_split_amounts(50, 100, 10), Ok(()));
    assert_eq!(validate_stake_split_amounts(100, 100, 10), Ok(()));
    assert_eq!(validate_stake_split_amounts(90, 100, 10), Ok(()));
    assert_eq!(validate_stake_split_amounts(10, 100, 10), Ok(()));
    assert_eq!(
        validate_stake_split_amounts(9, 100, 10),
        Err(BondError::InsufficientStakeAmount)
    );
    assert_eq!(
        validate_stake_split_amounts(91, 100, 10),
        Err(BondError::InsufficientStakeAmount)
    );
    assert_eq!(
        validate_stake_split_amounts(99, 100, 10),
        Err(BondError::InsufficientStakeAmount)
    );
    assert_eq!(
        validate_stake_split_amounts(101, 100, 10),
        Err(BondError::MathOverflow)
    );
}

#[test]
fn stake_redemption_leaving_dust_is_refused() {
    let ctx = stake_accounts(1000, 1000, pools(1000, 0, 0));
    assert_eq!(
        redeem_stake::handler(&ctx, 950, minimum(100)),
        Err(InstructionError::Bond(BondError::InsufficientStakeAmount))
    );
    assert_eq!(
        redeem_with_minimum(&ctx, 950, 100),
        Err(BondError::InsufficientStakeAmount)
    );
    let skewed = stake_accounts(7, 7, pools(1000, 0, 0));
    assert_eq!(
        redeem_with_minimum(&skewed, 6, 200),
        Err(BondError::InsufficientStakeAmount)
    );
}

#[test]
fn stake_redemption_splits_the_share() {
    let ctx = stake_accounts(600, 1000, pools(1000, 0, 0));
    let redeemed = redeem_stake::handler(&ctx, 400, minimum(100)).unwrap();
    assert_eq!(redeemed.split.lamports, 400);
    assert_eq!(redeemed.split.source, key(3));
    assert_eq!(redeemed.split.destination, key(9));
    assert_eq!(redeemed.split.authority, key(4));
    assert_eq!(redeemed.remaining_stake, 600);
    assert_eq!(redeemed.burn.amount, 400);
    assert_eq!(redeemed.burn.from, key(6));
    assert_eq!(redeemed.burn.authority, key(1));
    assert_eq!(redeemed.corcoin_balance_after, 200);
    assert_eq!(redeemed.destination.layout.stake_account, key(9));
    assert_eq!(redeemed.destination.layout.space, 200);
    assert_eq!(redeemed.destination.layout.owner, Pubkey::new(STAKE_PROGRAM_ID));
    assert_eq!(redeemed.destination.rent.lamports, 2_282_880);
    assert_eq!(redeemed.destination.rent.from, key(1));
    assert_eq!(redeemed.destination.rent.to, key(9));
    assert_eq!(redeemed.destination, create_destination_stake_account(&ctx));
    assert_eq!(redeemed.staker.stake_authorize, StakeAuthorize::Staker);
    assert_eq!(redeemed.withdrawer.stake_authorize, StakeAuthorize::Withdrawer);
    for handed in [redeemed.staker, redeemed.withdrawer] {
        assert_eq!(handed.stake_account, key(9));
        assert_eq!(handed.authority, key(4));
        assert_eq!(handed.new_authority, key(1));
    }
    assert_eq!(
        (redeemed.staker, redeemed.withdrawer),
        transfer_stake_authorities(&ctx)
    );
    assert_eq!(redeemed.split, split_stake_account(&ctx, 400));
    assert_eq!(redeemed.burn, redeem_stake::burn_corcoin_tokens(&ctx, 400));
    let whole = stake_accounts(1000, 1000, pools(1000, 0, 0));
    let all = redeem_stake::handler(&whole, 1000, minimum(100)).unwrap();
    assert_eq!(all.split.lamports, 1000);
    assert_eq!(all.remaining_stake, 0);
}

#[test]
fn stake_redemption_draws_on_active_stake_only() {
    let ctx = stake_accounts(600, 1000, pools(1000, 500, 500));
    assert_eq!(user_share_lamports(&ctx, 400), Ok(800));
    assert_eq!(
        user_share_lamports(&ctx, 600),
        Err(BondError::InsufficientTokens)
    );
    assert_eq!(
        redeem_stake::handler(&ctx, 600, minimum(100)),
        Err(InstructionError::Bond(BondError::InsufficientTokens))
    );
    assert_eq!(
        user_share_lamports(&ctx, 601),
        Err(BondError::InsufficientTokens)
    );
    let early = RedeemStake { now: MATURITY - 1, ..ctx };
    assert_eq!(
        user_share_lamports(&early, 400),
        Err(BondError::BondNotMatured)
    );
}

#[test]
fn stake_redemption_reads_the_minimum_delegation_last() {
    let ctx = stake_accounts(600, 1000, pools(1000, 0, 0));
    assert_eq!(
        redeem_stake::handler(&ctx, 400, None),
        Err(InstructionError::InvalidInstructionData)
    );
    assert_eq!(
        redeem_stake::handler(&ctx, 400, Some((key(1), 100u64.to_le_bytes().to_vec()))),
        Err(InstructionError::IncorrectProgramId)
    );
    assert_eq!(
        redeem_stake::handler(&ctx, 0, None),
        Err(InstructionError::Bond(BondError::InsufficientTokens))
    );
    let mut stranger = stake_accounts(600, 1000, pools(1000, 0, 0));
    stranger.user_corcoin_account.owner = key(8);
    assert_eq!(
        program::redeem_stake(&stranger, 400, minimum(100)),
        Err(InstructionError::ConstraintViolated)
    );
    assert_eq!(
        program::redeem_stake(&ctx, 400, minimum(100)).unwrap().split.lamports,
        400
    );
}

#[test]
fn bond_seeds_hold_the_maturity_least_significant_byte_first() {
    let seeds = get_bond_seeds(&bond());
    assert_eq!(&seeds.prefix, b"bond");
    assert_eq!(seeds.authority, [1u8; 32]);
    assert_eq!(seeds.validator, [2u8; 32]);
    assert_eq!(seeds.maturity, MATURITY.to_le_bytes());
    assert_eq!(seeds.bump, 254);
    let mut negative = bond();
    negative.maturity_timestamp = -2;
    assert_eq!(get_bond_seeds(&negative).maturity, (-2i64).to_le_bytes());
    negative.maturity_timestamp = i64::MIN;
    assert_eq!(get_bond_seeds(&negative).maturity, i64::MIN.to_le_bytes());
    negative.maturity_timestamp = i64::MAX;
    assert_eq!(get_bond_seeds(&negative).maturity, i64::MAX.to_le_bytes());
}

#[test]
fn counter_party_redemption_pays_from_the_liquid_reserve() {
    let ctx = counter_party_accounts(300, 1000, pools(5000, 3000, 2000));
    let redeemed = counter_party_redeem::handler(&ctx, 200).unwrap();
    assert_eq!(redeemed.payout.lamports, 2000);
    assert_eq!(redeemed.payout.from, key(4));
    assert_eq!(redeemed.payout.to, key(7));
    assert_eq!(redeemed.burn.amount, 200);
    assert_eq!(redeemed.burn.mint, key(5));
    assert_eq!(redeemed.burn.from, key(8));
    assert_eq!(redeemed.burn.authority, key(7));
    assert_eq!(redeemed.corcoin_balance_after, 100);
}

#[test]
fn counter_party_redemption_needs_liquid_coverage() {
    let ctx = counter_party_accounts(300, 1000, pools(5000, 3000, 2000));
    assert_eq!(
        counter_party_redeem::handler(&ctx, 201),
        Err(BondError::InsufficientTokens)
    );
    let dry = counter_party_accounts(300, 1000, pools(10_000, 0, 0));
    assert_eq!(
        counter_party_redeem::handler(&dry, 1),
        Err(BondError::InsufficientTokens)
    );
}

#[test]
fn counter_party_redemption_checks_claim_and_maturity() {
    let ctx = counter_party_accounts(300, 1000, pools(5000, 3000, 2000));
    assert_eq!(
        counter_party_redeem::handler(&ctx, 0),
        Err(BondError::InsufficientTokens)
    );
    assert_eq!(
        counter_party_redeem::handler(&ctx, 301),
        Err(BondError::InsufficientTokens)
    );
    let early = CounterPartyRedeem { now: MATURITY - 1, ..ctx };
    assert_eq!(
        counter_party_redeem::handler(&early, 200),
        Err(BondError::BondNotMatured)
    );
    let huge = counter_party_accounts(300, 1000, pools(u64::MAX, 1, 0));
    assert_eq!(
        counter_party_redeem::handler(&huge, 1),
        Err(BondError::MathOverflow)
    );
    let mut stranger = counter_party_accounts(300, 1000, pools(5000, 3000, 2000));
    stranger.gcp_corcoin_account.owner = key(1);
    assert_eq!(
        program::counter_party_redeem(&stranger, 200),
        Err(InstructionError::ConstraintViolated)
    );
    assert_eq!(
        program::counter_party_redeem(&ctx, 200).unwrap().payout.lamports,
        2000
    );
}
