//! Interest accrual: linear index growth, scaling between underlying and scaled amounts,
//! protocol rewards, and the re-computation of a market's rates.
use vstd::prelude::*;
use crate::arith::{lemma_ceil_mul_ge, lemma_div_le_self, lemma_div_monotone, lemma_floor_mul_le, lemma_le_div, lemma_mul_monotone};
use crate::decimal::{
    Decimal, MathError, DECIMAL_FRACTIONAL, divide_uint128_by_decimal,
    divide_uint128_by_decimal_and_ceil, fits_u128, mul_floor, opt_add, opt_dec_mul, spec_mul_floor,
    spec_ratio, spec_ratio_ceil,
};
use crate::error::ContractError;
use crate::market::{Market, spec_borrow_rate, spec_liquidity_rate};

verus! {

/// Scaling factor used to keep more precision during division / multiplication by index.
pub const SCALING_FACTOR: u128 = 1_000_000u128;

pub const SECONDS_PER_YEAR: u64 = 31536000u64;

/// Which rounding applies when an underlying amount is scaled by an index.
#[derive(Clone, Copy, Debug, PartialEq, Eq, Structural)]
pub enum ScalingOperation {
    /// Deposits: rounded down
    Liquidity,
    /// Debts: rounded up
    Debt,
}

/// `index * (1 + rate * t / year)`, each product rounded down, in atomics.
pub open spec fn spec_applied_rate(index: int, rate: int, time_elapsed: int) -> Option<int> {
    match opt_dec_mul(rate, spec_ratio(time_elapsed, SECONDS_PER_YEAR as int)) {
        Some(f) => match opt_add(DECIMAL_FRACTIONAL as int, f) {
            Some(s) => opt_dec_mul(index, s),
            None => None,
        },
        None => None,
    }
}

/// The scaled amount for `amount` at `index` (atomics).
pub open spec fn spec_scaled_amount(amount: int, index: int, op: ScalingOperation) -> Option<int> {
    let s = amount * SCALING_FACTOR;
    if s > u128::MAX || index == 0 {
        None
    } else {
        match op {
            ScalingOperation::Liquidity => if spec_ratio(s, index) <= u128::MAX {
                Some(spec_ratio(s, index))
            } else {
                None
            },
            ScalingOperation::Debt => if spec_ratio_ceil(s, index) <= u128::MAX {
                Some(spec_ratio_ceil(s, index))
            } else {
                None
            },
        }
    }
}

/// The underlying amount for `scaled_amount` at `index` (atomics).
pub open spec fn spec_underlying_amount(scaled_amount: int, index: int) -> Option<int> {
    if fits_u128(spec_mul_floor(scaled_amount, index)) {
        Some(spec_mul_floor(scaled_amount, index) / (SCALING_FACTOR as int))
    } else {
        None
    }
}

/// The borrow index of `m` brought forward to `timestamp`.
pub open spec fn spec_updated_borrow_index(m: Market, timestamp: int) -> Option<int> {
    if m.indexes_last_updated < timestamp && m.borrow_rate.val() > 0 {
        spec_applied_rate(m.borrow_index.val(), m.borrow_rate.val(), timestamp - m.indexes_last_updated)
    } else {
        Some(m.borrow_index.val())
    }
}

/// The liquidity index of `m` brought forward to `timestamp`.
pub open spec fn spec_updated_liquidity_index(m: Market, timestamp: int) -> Option<int> {
    if m.indexes_last_updated < timestamp && m.liquidity_rate.val() > 0 {
        spec_applied_rate(m.liquidity_index.val(), m.liquidity_rate.val(), timestamp - m.indexes_last_updated)
    } else {
        Some(m.liquidity_index.val())
    }
}

proof fn lemma_year_fraction_fits(t: u64)
    ensures
        spec_ratio(t as int, SECONDS_PER_YEAR as int) <= u128::MAX,
{
    lemma_mul_monotone(t as int, u64::MAX as int, DECIMAL_FRACTIONAL as int);
    lemma_div_le_self(t as int * DECIMAL_FRACTIONAL, SECONDS_PER_YEAR as int);
    assert(t as int * DECIMAL_FRACTIONAL >= 0) by (nonlinear_arith);
}

/// Applies a linear interest `rate` over `time_elapsed` seconds to `index`.
pub fn calculate_applied_linear_interest_rate(index: Decimal, rate: Decimal, time_elapsed: u64) -> (r: Result<Decimal, MathError>)
    ensures
        r is Ok <==> spec_applied_rate(index.val(), rate.val(), time_elapsed as int) is Some,
        r matches Ok(d) ==> Some(d.val()) == spec_applied_rate(index.val(), rate.val(), time_elapsed as int),
{
    proof {
        lemma_year_fraction_fits(time_elapsed);
    }
    let year_fraction = match Decimal::from_ratio(time_elapsed as u128, SECONDS_PER_YEAR as u128) {
        Ok(d) => d,
        Err(e) => return Err(e),
    };
    let rate_factor = rate.checked_mul(year_fraction)?;
    let growth = Decimal::one().checked_add(rate_factor)?;
    index.checked_mul(growth)
}

/// Scales the amount dividing by an index in order to compute interest rates. Before dividing,
/// the value is multiplied by SCALING_FACTOR for greater precision.
/// For debt amounts the scaled amount is rounded up in order to mitigate a potential lack
/// of liquidity caused by potential accumulation of rounding errors due to integer division
/// result getting truncated.
pub fn compute_scaled_amount(amount: u128, index: Decimal, scaling_operation: ScalingOperation) -> (r: Result<u128, MathError>)
    ensures
        r is Ok <==> spec_scaled_amount(amount as int, index.val(), scaling_operation) is Some,
        r matches Ok(v) ==> Some(v as int) == spec_scaled_amount(amount as int, index.val(), scaling_operation),
{
    let scaled_amount = match amount.checked_mul(SCALING_FACTOR) {
        Some(v) => v,
        None => return Err(MathError::Overflow),
    };
    match scaling_operation {
        ScalingOperation::Liquidity => divide_uint128_by_decimal(scaled_amount, index),
        ScalingOperation::Debt => divide_uint128_by_decimal_and_ceil(scaled_amount, index),
    }
}

/// Descales the amount introduced by `compute_scaled_amount`, returning the underlying amount.
pub fn compute_underlying_amount(scaled_amount: u128, index: Decimal) -> (r: Result<u128, MathError>)
    ensures
        r is Ok <==> spec_underlying_amount(scaled_amount as int, index.val()) is Some,
        r matches Ok(v) ==> Some(v as int) == spec_underlying_amount(scaled_amount as int, index.val()),
{
    let before_factor = mul_floor(scaled_amount, index)?;
    Ok(before_factor / SCALING_FACTOR)
}

/// The borrow index brought forward to `timestamp`.
pub fn get_updated_borrow_index(market: &Market, timestamp: u64) -> (r: Result<Decimal, MathError>)
    ensures
        r is Ok <==> spec_updated_borrow_index(*market, timestamp as int) is Some,
        r matches Ok(d) ==> Some(d.val()) == spec_updated_borrow_index(*market, timestamp as int),
{
    if market.indexes_last_updated < timestamp {
        let time_elapsed = timestamp - market.indexes_last_updated;
        if market.borrow_rate.atomics > 0 {
            return calculate_applied_linear_interest_rate(market.borrow_index, market.borrow_rate, time_elapsed);
        }
    }
    Ok(market.borrow_index)
}

/// The liquidity index brought forward to `timestamp`; refused for a timestamp before the
/// market's last update.
pub fn get_updated_liquidity_index(market: &Market, timestamp: u64) -> (r: Result<Decimal, ContractError>)
    ensures
        market.indexes_last_updated > timestamp ==> r == Err::<Decimal, ContractError>(
            ContractError::TimestampBeforeLastUpdate { timestamp, last_updated: market.indexes_last_updated },
        ),
        r is Ok <==> market.indexes_last_updated <= timestamp && spec_updated_liquidity_index(*market, timestamp as int) is Some,
        r matches Ok(d) ==> Some(d.val()) == spec_updated_liquidity_index(*market, timestamp as int),
{
    if market.indexes_last_updated > timestamp {
        return Err(ContractError::TimestampBeforeLastUpdate { timestamp, last_updated: market.indexes_last_updated });
    }
    if market.indexes_last_updated < timestamp {
        let time_elapsed = timestamp - market.indexes_last_updated;
        if market.liquidity_rate.atomics > 0 {
            return match calculate_applied_linear_interest_rate(market.liquidity_index, market.liquidity_rate, time_elapsed) {
                Ok(d) => Ok(d),
                Err(e) => Err(ContractError::Math(e)),
            };
        }
    }
    Ok(market.liquidity_index)
}


/// The scaled amount of a deposit of `amount` made at `timestamp`.
pub open spec fn spec_scaled_liquidity_amount(amount: int, m: Market, timestamp: int) -> Option<int> {
    if m.indexes_last_updated > timestamp {
        None
    } else {
        match spec_updated_liquidity_index(m, timestamp) {
            Some(i) => spec_scaled_amount(amount, i, ScalingOperation::Liquidity),
            None => None,
        }
    }
}

/// The underlying amount of `amount_scaled` deposit units at `timestamp`.
pub open spec fn spec_underlying_liquidity_amount(amount_scaled: int, m: Market, timestamp: int) -> Option<int> {
    if m.indexes_last_updated > timestamp {
        None
    } else {
        match spec_updated_liquidity_index(m, timestamp) {
            Some(i) => spec_underlying_amount(amount_scaled, i),
            None => None,
        }
    }
}

/// The scaled amount of a debt of `amount` taken at `timestamp`.
pub open spec fn spec_scaled_debt_amount(amount: int, m: Market, timestamp: int) -> Option<int> {
    match spec_updated_borrow_index(m, timestamp) {
        Some(i) => spec_scaled_amount(amount, i, ScalingOperation::Debt),
        None => None,
    }
}

/// The underlying amount of `amount_scaled` debt units at `timestamp`.
pub open spec fn spec_underlying_debt_amount(amount_scaled: int, m: Market, timestamp: int) -> Option<int> {
    match spec_updated_borrow_index(m, timestamp) {
        Some(i) => spec_underlying_amount(amount_scaled, i),
        None => None,
    }
}

/// Get scaled liquidity amount from an underlying amount, a Market and timestamp in seconds.
pub fn get_scaled_liquidity_amount(amount: u128, market: &Market, timestamp: u64) -> (r: Result<u128, ContractError>)
    ensures
        r is Ok <==> spec_scaled_liquidity_amount(amount as int, *market, timestamp as int) is Some,
        r matches Ok(v) ==> Some(v as int) == spec_scaled_liquidity_amount(amount as int, *market, timestamp as int),
{
    let index = get_updated_liquidity_index(market, timestamp)?;
    match compute_scaled_amount(amount, index, ScalingOperation::Liquidity) {
        Ok(v) => Ok(v),
        Err(e) => Err(ContractError::Math(e)),
    }
}

/// Get underlying liquidity amount from a scaled amount, a Market and timestamp in seconds.
pub fn get_underlying_liquidity_amount(amount_scaled: u128, market: &Market, timestamp: u64) -> (r: Result<u128, ContractError>)
    ensures
        r is Ok <==> spec_underlying_liquidity_amount(amount_scaled as int, *market, timestamp as int) is Some,
        r matches Ok(v) ==> Some(v as int) == spec_underlying_liquidity_amount(amount_scaled as int, *market, timestamp as int),
{
    let index = get_updated_liquidity_index(market, timestamp)?;
    match compute_underlying_amount(amount_scaled, index) {
        Ok(v) => Ok(v),
        Err(e) => Err(ContractError::Math(e)),
    }
}

/// Get scaled debt amount from an underlying amount, a Market and timestamp in seconds.
pub fn get_scaled_debt_amount(amount: u128, market: &Market, timestamp: u64) -> (r: Result<u128, ContractError>)
    ensures
        r is Ok <==> spec_scaled_debt_amount(amount as int, *market, timestamp as int) is Some,
        r matches Ok(v) ==> Some(v as int) == spec_scaled_debt_amount(amount as int, *market, timestamp as int),
{
    let index = match get_updated_borrow_index(market, timestamp) {
        Ok(i) => i,
        Err(e) => return Err(ContractError::Math(e)),
    };
    match compute_scaled_amount(amount, index, ScalingOperation::Debt) {
        Ok(v) => Ok(v),
        Err(e) => Err(ContractError::Math(e)),
    }
}

/// Get underlying debt amount from a scaled amount, a Market and timestamp in seconds.
pub fn get_underlying_debt_amount(amount_scaled: u128, market: &Market, timestamp: u64) -> (r: Result<u128, ContractError>)
    ensures
        r is Ok <==> spec_underlying_debt_amount(amount_scaled as int, *market, timestamp as int) is Some,
        r matches Ok(v) ==> Some(v as int) == spec_underlying_debt_amount(amount_scaled as int, *market, timestamp as int),
{
    let index = match get_updated_borrow_index(market, timestamp) {
        Ok(i) => i,
        Err(e) => return Err(ContractError::Math(e)),
    };
    match compute_underlying_amount(amount_scaled, index) {
        Ok(v) => Ok(v),
        Err(e) => Err(ContractError::Math(e)),
    }
}

/// Protocol rewards accrued when the borrow index moves from the market's index to
/// `new_borrow_index`: the growth of the total debt times the reserve factor.
pub open spec fn spec_protocol_rewards(m: Market, new_borrow_index: int) -> Option<int> {
    match (spec_underlying_amount(m.debt_total_scaled as int, m.borrow_index.val()),
        spec_underlying_amount(m.debt_total_scaled as int, new_borrow_index)) {
        (Some(before), Some(after)) => {
            let accrued = if after > before { after - before } else { 0 };
            if fits_u128(spec_mul_floor(accrued, m.reserve_factor.val())) {
                Some(spec_mul_floor(accrued, m.reserve_factor.val()))
            } else {
                None
            }
        },
        _ => None,
    }
}

/// The market after its indices were brought forward to `timestamp`.
pub open spec fn spec_advanced_market(m: Market, timestamp: u64, borrow_index: int, liquidity_index: int) -> Market {
    if m.indexes_last_updated < timestamp {
        Market {
            borrow_index: Decimal { atomics: borrow_index as u128 },
            liquidity_index: Decimal { atomics: liquidity_index as u128 },
            indexes_last_updated: timestamp,
            ..m
        }
    } else {
        m
    }
}

/// What `apply_accumulated_interests` computes: the market with up-to-date indices, and the
/// amount of deposit units to mint to the rewards collector when there are protocol rewards.
pub open spec fn spec_apply_accumulated_interests(m: Market, timestamp: u64) -> Option<(Market, Option<u128>)> {
    match (spec_updated_borrow_index(m, timestamp as int), spec_updated_liquidity_index(m, timestamp as int)) {
        (Some(bi), Some(li)) => {
            let new_market = spec_advanced_market(m, timestamp, bi, li);
            match spec_protocol_rewards(m, new_market.borrow_index.val()) {
                Some(rewards) => if rewards > 0 {
                    match spec_scaled_amount(rewards, new_market.liquidity_index.val(), ScalingOperation::Liquidity) {
                        Some(mint) => Some((new_market, Some(mint as u128))),
                        None => None,
                    }
                } else {
                    Some((new_market, None))
                },
                None => None,
            }
        },
        _ => None,
    }
}

/// Calculates accumulated interest for the time between last time market index was updated
/// and `current_timestamp`, and updates the market's borrow and liquidity indices.
/// Returns the amount of deposit units to mint to the protocol rewards collector, if there
/// are protocol rewards. It does not save the market to store.
pub fn apply_accumulated_interests(current_timestamp: u64, market: &mut Market) -> (r: Result<Option<u128>, ContractError>)
    ensures
        r is Ok <==> spec_apply_accumulated_interests(*old(market), current_timestamp) is Some,
        r matches Ok(mint) ==> spec_apply_accumulated_interests(*old(market), current_timestamp) == Some((*final(market), mint)),
{
    let previous_borrow_index = market.borrow_index;
    let ghost old_market = *market;
    if market.indexes_last_updated < current_timestamp {
        let time_elapsed = current_timestamp - market.indexes_last_updated;
        if market.borrow_rate.atomics > 0 {
            market.borrow_index = match calculate_applied_linear_interest_rate(market.borrow_index, market.borrow_rate, time_elapsed) {
                Ok(d) => d,
                Err(e) => return Err(ContractError::Math(e)),
            };
        }
        if market.liquidity_rate.atomics > 0 {
            market.liquidity_index = match calculate_applied_linear_interest_rate(market.liquidity_index, market.liquidity_rate, time_elapsed) {
                Ok(d) => d,
                Err(e) => return Err(ContractError::Math(e)),
            };
        }
        market.indexes_last_updated = current_timestamp;
    }
    assert(spec_updated_borrow_index(old_market, current_timestamp as int) == Some(market.borrow_index.val()));
    assert(spec_updated_liquidity_index(old_market, current_timestamp as int) == Some(market.liquidity_index.val()));
    assert(*market == spec_advanced_market(old_market, current_timestamp, market.borrow_index.val(), market.liquidity_index.val()));

    // Compute accrued protocol rewards
    let previous_debt_total = match compute_underlying_amount(market.debt_total_scaled, previous_borrow_index) {
        Ok(v) => v,
        Err(e) => return Err(ContractError::Math(e)),
    };
    let new_debt_total = match compute_underlying_amount(market.debt_total_scaled, market.borrow_index) {
        Ok(v) => v,
        Err(e) => return Err(ContractError::Math(e)),
    };
    // debt stays constant between the application of the interest rate so the difference
    // between debt at the start and the end is the total borrow interest accrued
    let borrow_interest_accrued = if new_debt_total > previous_debt_total {
        new_debt_total - previous_debt_total
    } else {
        0
    };
    let accrued_protocol_rewards = match mul_floor(borrow_interest_accrued, market.reserve_factor) {
        Ok(v) => v,
        Err(e) => return Err(ContractError::Math(e)),
    };
    if accrued_protocol_rewards > 0 {
        let mint_amount = match compute_scaled_amount(accrued_protocol_rewards, market.liquidity_index, ScalingOperation::Liquidity) {
            Ok(v) => v,
            Err(e) => return Err(ContractError::Math(e)),
        };
        Ok(Some(mint_amount))
    } else {
        Ok(None)
    }
}

/// Utilization (atomics) of a market with the given available liquidity and total debt.
pub open spec fn spec_utilization_rate(available_liquidity: int, total_debt: int) -> Option<int> {
    if total_debt > 0 {
        if available_liquidity + total_debt <= u128::MAX && spec_ratio(total_debt, available_liquidity + total_debt) <= u128::MAX {
            Some(spec_ratio(total_debt, available_liquidity + total_debt))
        } else {
            None
        }
    } else {
        Some(0)
    }
}

/// What `update_interest_rates` computes from the market's liquidity (the contract's balance
/// minus `liquidity_taken`) and its total debt at `timestamp`.
pub open spec fn spec_update_interest_rates(m: Market, contract_balance: u128, liquidity_taken: u128, timestamp: u64) -> Option<Market> {
    if contract_balance < liquidity_taken {
        None
    } else {
        match spec_underlying_debt_amount(m.debt_total_scaled as int, m, timestamp as int) {
            Some(debt) => match spec_utilization_rate(contract_balance - liquidity_taken, debt) {
                Some(u) => match spec_borrow_rate(m.interest_rate_model, u) {
                    Some(br) => match spec_liquidity_rate(br, u, m.reserve_factor.val()) {
                        Some(lr) => Some(Market {
                            borrow_rate: Decimal { atomics: br as u128 },
                            liquidity_rate: Decimal { atomics: lr as u128 },
                            ..m
                        }),
                        None => None,
                    },
                    None => None,
                },
                None => None,
            },
            None => None,
        }
    }
}

/// Update interest rates for current liquidity and debt levels.
/// `contract_current_balance` is the contract's balance of the market's asset; the
/// liquidity still available is that balance minus `liquidity_taken`.
/// Note it does not save the market to the store (that is left to the caller), and the event
/// reporting the new rates is added by the red bank's operations (`refresh_interest_rates`).
/// On an error the market is left as it was.
pub fn update_interest_rates(contract_current_balance: u128, liquidity_taken: u128, timestamp: u64, market: &mut Market) -> (r: Result<(), ContractError>)
    ensures
        r is Err ==> *final(market) == *old(market),
        contract_current_balance < liquidity_taken ==> r == Err::<(), ContractError>(ContractError::OperationExceedsAvailableLiquidity),
        r is Ok <==> spec_update_interest_rates(*old(market), contract_current_balance, liquidity_taken, timestamp) is Some,
        r is Ok ==> spec_update_interest_rates(*old(market), contract_current_balance, liquidity_taken, timestamp) == Some(*final(market)),
{
    if contract_current_balance < liquidity_taken {
        return Err(ContractError::OperationExceedsAvailableLiquidity);
    }
    let available_liquidity = contract_current_balance - liquidity_taken;
    let total_debt = get_underlying_debt_amount(market.debt_total_scaled, market, timestamp)?;
    let current_utilization_rate = if total_debt > 0 {
        let liquidity_and_debt = match available_liquidity.checked_add(total_debt) {
            Some(v) => v,
            None => return Err(ContractError::Math(MathError::Overflow)),
        };
        match Decimal::from_ratio(total_debt, liquidity_and_debt) {
            Ok(d) => d,
            Err(e) => return Err(ContractError::Math(e)),
        }
    } else {
        Decimal::zero()
    };
    let borrow_rate = match market.interest_rate_model.get_borrow_rate(current_utilization_rate) {
        Ok(d) => d,
        Err(e) => return Err(ContractError::Math(e)),
    };
    let liquidity_rate = match market.interest_rate_model.get_liquidity_rate(borrow_rate, current_utilization_rate, market.reserve_factor) {
        Ok(d) => d,
        Err(e) => return Err(ContractError::Math(e)),
    };
    market.borrow_rate = borrow_rate;
    market.liquidity_rate = liquidity_rate;
    Ok(())
}


/// Repaying what a debt is worth covers it: scaling an amount as a debt (rounding up) and
/// descaling it at the same index gives back at least that amount.
pub proof fn lemma_debt_scaling_round_trip(amount: u128, index: Decimal, scaled: int, underlying: int)
    requires
        spec_scaled_amount(amount as int, index.val(), ScalingOperation::Debt) == Some(scaled),
        spec_underlying_amount(scaled, index.val()) == Some(underlying),
    ensures
        underlying >= amount,
{
    let d = DECIMAL_FRACTIONAL as int;
    let sf = SCALING_FACTOR as int;
    let n = amount as int * sf;
    assert(n >= 0) by (nonlinear_arith)
        requires
            amount >= 0,
            sf > 0,
            n == amount * sf,
    ;
    assert(n * d >= 0) by (nonlinear_arith)
        requires
            n >= 0,
            d > 0,
    ;
    lemma_ceil_mul_ge(n * d, index.val());
    // scaled * index >= n * d, so (scaled * index) / d >= n
    assert(scaled * index.val() >= n * d) by {
        vstd::arithmetic::mul::lemma_mul_is_commutative(scaled, index.val());
    }
    lemma_le_div(n, scaled * index.val(), d);
    // and n / sf == amount
    lemma_le_div(amount as int, spec_mul_floor(scaled, index.val()), sf);
}

/// A deposit never grows by being scaled and descaled at the same index: scaling an amount
/// as liquidity (rounding down) and descaling it gives back at most that amount.
pub proof fn lemma_liquidity_scaling_round_trip(amount: u128, index: Decimal, scaled: int, underlying: int)
    requires
        spec_scaled_amount(amount as int, index.val(), ScalingOperation::Liquidity) == Some(scaled),
        spec_underlying_amount(scaled, index.val()) == Some(underlying),
    ensures
        underlying <= amount,
{
    let d = DECIMAL_FRACTIONAL as int;
    let sf = SCALING_FACTOR as int;
    let n = amount as int * sf;
    assert(n >= 0) by (nonlinear_arith)
        requires
            amount >= 0,
            sf > 0,
            n == amount * sf,
    ;
    assert(n * d >= 0) by (nonlinear_arith)
        requires
            n >= 0,
            d > 0,
    ;
    lemma_floor_mul_le(n * d, index.val());
    assert(scaled * index.val() <= n * d) by {
        vstd::arithmetic::mul::lemma_mul_is_commutative(scaled, index.val());
    }
    lemma_div_monotone(scaled * index.val(), n * d, d);
    crate::arith::lemma_mul_div_cancel(n, d);
    lemma_div_monotone(spec_mul_floor(scaled, index.val()), n, sf);
    crate::arith::lemma_mul_div_cancel(amount as int, sf);
}

/// Applying a non-negative interest rate never lowers an index.
pub proof fn lemma_applied_rate_non_decreasing(index: Decimal, rate: Decimal, time_elapsed: int, result: int)
    requires
        time_elapsed >= 0,
        spec_applied_rate(index.val(), rate.val(), time_elapsed) == Some(result),
    ensures
        result >= index.val(),
{
    let d = DECIMAL_FRACTIONAL as int;
    let f = spec_mul_floor(rate.val(), spec_ratio(time_elapsed, SECONDS_PER_YEAR as int));
    assert(f >= 0) by {
        assert(time_elapsed * d >= 0) by (nonlinear_arith)
            requires
                time_elapsed >= 0,
                d > 0,
        ;
        lemma_div_le_self(time_elapsed * d, SECONDS_PER_YEAR as int);
        let yf = spec_ratio(time_elapsed, SECONDS_PER_YEAR as int);
        assert(rate.val() * yf >= 0) by (nonlinear_arith)
            requires
                rate.val() >= 0,
                yf >= 0,
        ;
        lemma_div_le_self(rate.val() * yf, d);
    }
    lemma_mul_monotone(d, d + f, index.val());
    assert(index.val() * d <= index.val() * (d + f)) by {
        vstd::arithmetic::mul::lemma_mul_is_commutative(index.val(), d);
        vstd::arithmetic::mul::lemma_mul_is_commutative(index.val(), d + f);
    }
    lemma_le_div(index.val(), index.val() * (d + f), d);
}

/// Bringing a market's indices forward in time never lowers them.
pub proof fn lemma_updated_indices_non_decreasing(m: Market, timestamp: int, bi: int, li: int)
    requires
        spec_updated_borrow_index(m, timestamp) == Some(bi),
        spec_updated_liquidity_index(m, timestamp) == Some(li),
    ensures
        bi >= m.borrow_index.val(),
        li >= m.liquidity_index.val(),
{
    if m.indexes_last_updated < timestamp && m.borrow_rate.val() > 0 {
        lemma_applied_rate_non_decreasing(m.borrow_index, m.borrow_rate, timestamp - m.indexes_last_updated, bi);
    }
    if m.indexes_last_updated < timestamp && m.liquidity_rate.val() > 0 {
        lemma_applied_rate_non_decreasing(m.liquidity_index, m.liquidity_rate, timestamp - m.indexes_last_updated, li);
    }
}

/// A withdrawal never pays out more than was deposited: the deposit units minted for an
/// amount at a market's liquidity index, when withdrawn in full at the same time, are worth at
/// most that amount.
pub proof fn lemma_withdraw_after_deposit_never_exceeds_it(m: Market, timestamp: int, deposit_amount: u128, minted: int, withdrawn: int)
    requires
        spec_scaled_liquidity_amount(deposit_amount as int, m, timestamp) == Some(minted),
        spec_underlying_liquidity_amount(minted, m, timestamp) == Some(withdrawn),
    ensures
        withdrawn <= deposit_amount,
{
    let i = spec_updated_liquidity_index(m, timestamp).unwrap();
    assert(fits_u128(i));
    lemma_liquidity_scaling_round_trip(deposit_amount, Decimal { atomics: i as u128 }, minted, withdrawn);
}

/// A debt is never repaid by less than was borrowed: the debt units recorded for an amount at a
/// market's borrow index are worth at least that amount at the same time.
pub proof fn lemma_repay_after_borrow_covers_it(m: Market, timestamp: int, borrow_amount: u128, recorded: int, owed: int)
    requires
        spec_scaled_debt_amount(borrow_amount as int, m, timestamp) == Some(recorded),
        spec_underlying_debt_amount(recorded, m, timestamp) == Some(owed),
    ensures
        owed >= borrow_amount,
{
    let i = spec_updated_borrow_index(m, timestamp).unwrap();
    assert(fits_u128(i));
    lemma_debt_scaling_round_trip(borrow_amount, Decimal { atomics: i as u128 }, recorded, owed);
}

} // verus!
