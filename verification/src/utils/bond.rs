//! Collateral valuation: the value behind a bond and a claim's share of it.

use crate::error::BondError;
use vstd::prelude::*;

verus! {

/// What the bond record can spend: its balance above the floor that keeps the
/// record alive.
pub open spec fn liquid_reserve(bond_record_balance: u64, rent_exempt_minimum: u64) -> int {
    if bond_record_balance >= rent_exempt_minimum {
        bond_record_balance - rent_exempt_minimum
    } else {
        0
    }
}

/// The value behind a bond: active stake, cooling stake and liquid reserve.
pub open spec fn total_bond_value(
    active_balance: u64,
    deactivating_balance: u64,
    bond_record_balance: u64,
    rent_exempt_minimum: u64,
) -> int {
    active_balance + deactivating_balance + liquid_reserve(
        bond_record_balance,
        rent_exempt_minimum,
    )
}

/// A claim's proportional share of a bond's value, rounded down; nothing when
/// no claim is outstanding.
pub open spec fn user_share(total_bond_value: u64, total_supply: u64, claim_amount: u64) -> int {
    if total_supply == 0 {
        0
    } else {
        (total_bond_value * claim_amount) / (total_supply as int)
    }
}

/// Whether the share can be computed in 64 bits: the product must fit unless
/// there is no supply to divide by.
pub open spec fn user_share_fits(total_bond_value: u64, total_supply: u64, claim_amount: u64) -> bool {
    total_supply == 0 || total_bond_value * claim_amount <= u64::MAX
}

/// The balances behind one bond, as read from the ledger at the start of an
/// operation. The pools are derived from them, never stored.
#[derive(Clone, Copy, Debug, PartialEq, Eq, Structural)]
pub struct CollateralPools {
    /// Balance of the active stake account.
    pub active: u64,
    /// Balance of the bond's cooling stake account.
    pub deactivating: u64,
    /// Balance of the bond record itself.
    pub bond_record_balance: u64,
    /// What the bond record must keep to stay alive.
    pub rent_exempt_minimum: u64,
}

impl CollateralPools {
    /// The liquid pool.
    pub open spec fn liquid(&self) -> int {
        liquid_reserve(self.bond_record_balance, self.rent_exempt_minimum)
    }

    /// The value of the three pools together.
    pub open spec fn total(&self) -> int {
        total_bond_value(
            self.active,
            self.deactivating,
            self.bond_record_balance,
            self.rent_exempt_minimum,
        )
    }

    /// The active pool.
    pub fn active_balance(&self) -> (balance: u64)
        ensures
            balance == self.active,
    {
        self.active
    }

    /// The cooling pool.
    pub fn deactivating_balance(&self) -> (balance: u64)
        ensures
            balance == self.deactivating,
    {
        self.deactivating
    }

    /// The liquid pool.
    pub fn liquid_reserve(&self) -> (balance: u64)
        ensures
            balance == self.liquid(),
    {
        calculate_liquid_reserve(self.bond_record_balance, self.rent_exempt_minimum)
    }

    /// The value of the bond: the three pools summed, `MathOverflow` exactly
    /// when the sum leaves the 64-bit range.
    pub fn total_value(&self) -> (value: Result<u64, BondError>)
        ensures
            self.total() <= u64::MAX ==> value == Ok::<u64, BondError>(self.total() as u64),
            self.total() > u64::MAX ==> value == Err::<u64, BondError>(BondError::MathOverflow),
            value matches Ok(v) ==> v == self.active + self.deactivating + self.liquid(),
    {
        calculate_total_bond_value(
            self.active,
            self.deactivating,
            self.bond_record_balance,
            self.rent_exempt_minimum,
        )
    }
}

/// The spendable part of the bond record's balance.
pub fn calculate_liquid_reserve(bond_record_balance: u64, rent_exempt_minimum: u64) -> (liquid: u64)
    ensures
        liquid == liquid_reserve(bond_record_balance, rent_exempt_minimum),
{
    bond_record_balance.saturating_sub(rent_exempt_minimum)
}

/// Sums the three collateral pools of a bond.
///
/// Fails with `MathOverflow` exactly when the sum leaves the 64-bit range.
pub fn calculate_total_bond_value(
    active_balance: u64,
    deactivating_balance: u64,
    bond_record_balance: u64,
    rent_exempt_minimum: u64,
) -> (value: Result<u64, BondError>)
    ensures
        total_bond_value(
            active_balance,
            deactivating_balance,
            bond_record_balance,
            rent_exempt_minimum,
        ) <= u64::MAX ==> value == Ok::<u64, BondError>(
            total_bond_value(
                active_balance,
                deactivating_balance,
                bond_record_balance,
                rent_exempt_minimum,
            ) as u64,
        ),
        total_bond_value(
            active_balance,
            deactivating_balance,
            bond_record_balance,
            rent_exempt_minimum,
        ) > u64::MAX ==> value == Err::<u64, BondError>(BondError::MathOverflow),
{
    let liquid_reserves: u64 = calculate_liquid_reserve(bond_record_balance, rent_exempt_minimum);
    match active_balance.checked_add(deactivating_balance) {
        Some(staked) => match staked.checked_add(liquid_reserves) {
            Some(total) => Ok(total),
            None => Err(BondError::MathOverflow),
        },
        None => Err(BondError::MathOverflow),
    }
}

/// The share of `total_bond_value` that `corcoin_amount` claim tokens stand
/// for, out of `total_corcoin_supply`.
///
/// With no supply the share is zero. Otherwise it is the product divided by
/// the supply, rounded down; `MathOverflow` exactly when the product leaves the
/// 64-bit range.
pub fn calculate_user_share(
    total_bond_value: u64,
    total_corcoin_supply: u64,
    corcoin_amount: u64,
) -> (share: Result<u64, BondError>)
    ensures
        user_share_fits(total_bond_value, total_corcoin_supply, corcoin_amount) ==> share == Ok::<
            u64,
            BondError,
        >(user_share(total_bond_value, total_corcoin_supply, corcoin_amount) as u64),
        !user_share_fits(total_bond_value, total_corcoin_supply, corcoin_amount) ==> share == Err::<
            u64,
            BondError,
        >(BondError::MathOverflow),
        share is Ok ==> user_share(total_bond_value, total_corcoin_supply, corcoin_amount)
            <= u64::MAX,
{
    if total_corcoin_supply == 0 {
        return Ok(0);
    }
    match total_bond_value.checked_mul(corcoin_amount) {
        Some(product) => {
            proof {
                lemma_quotient_bounded(product as int, total_corcoin_supply as int);
            }
            Ok(product / total_corcoin_supply)
        },
        None => Err(BondError::MathOverflow),
    }
}

/// The liquidity that must stand behind `corcoin_tokens` claim tokens: their
/// share of the bond's value.
pub fn calculate_required_coverage(
    total_bond_value: u64,
    corcoin_tokens: u64,
    total_supply: u64,
) -> (coverage: Result<u64, BondError>)
    ensures
        user_share_fits(total_bond_value, total_supply, corcoin_tokens) ==> coverage == Ok::<
            u64,
            BondError,
        >(user_share(total_bond_value, total_supply, corcoin_tokens) as u64),
        !user_share_fits(total_bond_value, total_supply, corcoin_tokens) ==> coverage == Err::<
            u64,
            BondError,
        >(BondError::MathOverflow),
{
    calculate_user_share(total_bond_value, total_supply, corcoin_tokens)
}

/// A non-negative number divided by a positive one stays between zero and
/// itself.
proof fn lemma_quotient_bounded(x: int, d: int)
    by (nonlinear_arith)
    requires
        0 <= x,
        0 < d,
    ensures
        0 <= x / d <= x,
{
}

/// The share grows with the value it is taken from.
pub proof fn lemma_user_share_monotonic(low: u64, high: u64, total_supply: u64, claim_amount: u64)
    requires
        low <= high,
    ensures
        user_share(low, total_supply, claim_amount) <= user_share(
            high,
            total_supply,
            claim_amount,
        ),
{
    if total_supply != 0 {
        lemma_product_quotient_monotonic(
            low as int,
            high as int,
            claim_amount as int,
            total_supply as int,
        );
    }
}

/// Multiplying by a non-negative factor and dividing by a positive one keeps
/// the order of two numbers.
proof fn lemma_product_quotient_monotonic(low: int, high: int, factor: int, d: int)
    by (nonlinear_arith)
    requires
        0 <= low <= high,
        0 <= factor,
        0 < d,
    ensures
        (low * factor) / d <= (high * factor) / d,
{
}

/// A claim within the supply is never worth more than the bond, and the
/// whole supply is worth all of it.
pub proof fn lemma_user_share_within_value(total: u64, total_supply: u64, claim_amount: u64)
    requires
        claim_amount <= total_supply,
    ensures
        0 <= user_share(total, total_supply, claim_amount) <= total,
        total_supply != 0 ==> user_share(total, total_supply, total_supply) == total,
{
    if total_supply != 0 {
        lemma_share_of_part(total as int, total_supply as int, claim_amount as int);
        lemma_share_of_whole(total as int, total_supply as int);
    }
}

/// Value added to a bond raises the share of a claim within the supply by no
/// more than what was added.
pub proof fn lemma_user_share_of_added_value(
    total: u64,
    added: u64,
    total_supply: u64,
    claim_amount: u64,
)
    requires
        claim_amount <= total_supply,
        total + added <= u64::MAX,
    ensures
        user_share((total + added) as u64, total_supply, claim_amount) <= user_share(
            total,
            total_supply,
            claim_amount,
        ) + added,
{
    if total_supply != 0 {
        lemma_share_of_sum(
            total as int,
            added as int,
            total_supply as int,
            claim_amount as int,
        );
    }
}

/// Redeeming a claim in two parts never pays more than redeeming it at once:
/// each part is rounded down on its own.
pub proof fn lemma_user_share_of_parts(total: u64, total_supply: u64, first: u64, second: u64)
    requires
        first + second <= u64::MAX,
    ensures
        user_share(total, total_supply, first) + user_share(total, total_supply, second)
            <= user_share(total, total_supply, (first + second) as u64),
{
    if total_supply != 0 {
        lemma_share_of_two(total as int, total_supply as int, first as int, second as int);
    }
}

proof fn lemma_share_of_two(total: int, supply: int, first: int, second: int)
    by (nonlinear_arith)
    requires
        0 <= total,
        0 <= first,
        0 <= second,
        0 < supply,
    ensures
        (total * first) / supply + (total * second) / supply <= (total * (first + second))
            / supply,
{
}

proof fn lemma_share_of_part(total: int, supply: int, claim: int)
    by (nonlinear_arith)
    requires
        0 <= total,
        0 <= claim <= supply,
        0 < supply,
    ensures
        0 <= (total * claim) / supply <= total,
{
}

proof fn lemma_share_of_whole(total: int, supply: int)
    by (nonlinear_arith)
    requires
        0 <= total,
        0 < supply,
    ensures
        (total * supply) / supply == total,
{
}

proof fn lemma_share_of_sum(total: int, added: int, supply: int, claim: int)
    by (nonlinear_arith)
    requires
        0 <= total,
        0 <= added,
        0 <= claim <= supply,
        0 < supply,
    ensures
        ((total + added) * claim) / supply <= (total * claim) / supply + added,
{
}

} // verus!
