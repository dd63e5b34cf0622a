//! Money-market parameters: the interest rate model, the per-asset `Market`, the
//! red bank's configuration, and their validation.
use vstd::prelude::*;
use crate::decimal::{
    Decimal, MathError, DECIMAL_FRACTIONAL, lemma_mul_floor_le_amount, opt_add, opt_dec_div, opt_dec_mul, spec_mul_floor, spec_ratio,
};

verus! {

/// The parameter a validation failure is about.
#[derive(Clone, Copy, Debug, PartialEq, Eq, Structural)]
pub enum ParamName {
    MaxLoanToValue,
    ReserveFactor,
    LiquidationThreshold,
    LiquidationBonus,
    OptimalUtilizationRate,
    CloseFactor,
    SafetyTaxRate,
}

/// The condition a parameter failed to meet.
#[derive(Clone, Copy, Debug, PartialEq, Eq, Structural)]
pub enum Predicate {
    /// The value must be at most 1.
    LeOne,
    /// The value must be greater than the given maximum loan-to-value.
    GtMaxLtv(Decimal),
}

#[derive(Clone, Copy, Debug, PartialEq, Eq, Structural)]
pub enum ValidationError {
    InvalidParam { param_name: ParamName, invalid_value: Decimal, predicate: Predicate },
}

pub open spec fn le_one(d: Decimal) -> bool {
    d.val() <= DECIMAL_FRACTIONAL
}

/// The result of checking that `value` is at most 1.
pub open spec fn spec_param_le_one(value: Decimal, name: ParamName) -> Result<(), ValidationError> {
    if le_one(value) {
        Ok(())
    } else {
        Err(ValidationError::InvalidParam { param_name: name, invalid_value: value, predicate: Predicate::LeOne })
    }
}

/// Checks that a decimal parameter is at most 1.
pub fn decimal_param_le_one(value: Decimal, name: ParamName) -> (r: Result<(), ValidationError>)
    ensures
        r == spec_param_le_one(value, name),
{
    if value.atomics <= DECIMAL_FRACTIONAL {
        Ok(())
    } else {
        Err(ValidationError::InvalidParam { param_name: name, invalid_value: value, predicate: Predicate::LeOne })
    }
}

/// Linear ("kinked") interest rate model: the borrow rate grows with `slope_1` up to the
/// optimal utilization rate and with `slope_2` above it.
#[derive(Clone, Copy, Debug, PartialEq, Eq, Structural)]
pub struct InterestRateModel {
    pub optimal_utilization_rate: Decimal,
    pub base: Decimal,
    pub slope_1: Decimal,
    pub slope_2: Decimal,
}

/// Borrow rate (atomics) at utilization `u` (atomics); `None` where the computation overflows
/// or divides by zero.
pub open spec fn spec_borrow_rate(m: InterestRateModel, u: int) -> Option<int> {
    let opt = m.optimal_utilization_rate.val();
    if u <= opt {
        if u == 0 {
            Some(m.base.val())
        } else {
            match opt_dec_div(u, opt) {
                Some(q) => match opt_dec_mul(m.slope_1.val(), q) {
                    Some(p) => opt_add(m.base.val(), p),
                    None => None,
                },
                None => None,
            }
        }
    } else {
        match opt_add(m.base.val(), m.slope_1.val()) {
            Some(s) => if opt <= DECIMAL_FRACTIONAL {
                match opt_dec_div(u - opt, DECIMAL_FRACTIONAL - opt) {
                    Some(q) => match opt_dec_mul(m.slope_2.val(), q) {
                        Some(p) => opt_add(s, p),
                        None => None,
                    },
                    None => None,
                }
            } else {
                None
            },
            None => None,
        }
    }
}

/// Liquidity rate (atomics): `borrow_rate * u * (1 - reserve_factor)`, each product rounded down.
pub open spec fn spec_liquidity_rate(borrow_rate: int, u: int, reserve_factor: int) -> Option<int> {
    match opt_dec_mul(borrow_rate, u) {
        Some(p) => if reserve_factor <= DECIMAL_FRACTIONAL {
            opt_dec_mul(p, DECIMAL_FRACTIONAL - reserve_factor)
        } else {
            None
        },
        None => None,
    }
}

impl InterestRateModel {
    pub open spec fn valid(self) -> bool {
        le_one(self.optimal_utilization_rate)
    }

    pub fn validate(&self) -> (r: Result<(), ValidationError>)
        ensures
            r == spec_param_le_one(self.optimal_utilization_rate, ParamName::OptimalUtilizationRate),
    {
        decimal_param_le_one(self.optimal_utilization_rate, ParamName::OptimalUtilizationRate)
    }

    /// The borrow rate for the given utilization rate.
    pub fn get_borrow_rate(&self, current_utilization_rate: Decimal) -> (r: Result<Decimal, MathError>)
        ensures
            r is Ok <==> spec_borrow_rate(*self, current_utilization_rate.val()) is Some,
            r matches Ok(d) ==> Some(d.val()) == spec_borrow_rate(*self, current_utilization_rate.val()),
            r matches Ok(d) ==> d.val() >= self.base.val(),
            current_utilization_rate.val() == 0 ==> r == Ok::<Decimal, MathError>(self.base),
    {
        proof {
            lemma_borrow_rate_closed_form(*self, current_utilization_rate.val());
        }
        let u = current_utilization_rate;
        let opt = self.optimal_utilization_rate;
        if u.atomics <= opt.atomics {
            if u.is_zero() {
                // prevent division by zero when the optimal utilization rate is zero
                Ok(self.base)
            } else {
                // below the optimum the borrow rate increases slowly with utilization
                let q = u.checked_div(opt)?;
                let p = self.slope_1.checked_mul(q)?;
                self.base.checked_add(p)
            }
        } else {
            // above the optimum the borrow rate increases sharply with utilization
            let s = self.base.checked_add(self.slope_1)?;
            let headroom = Decimal::one().checked_sub(opt)?;
            let excess = u.checked_sub(opt)?;
            let q = excess.checked_div(headroom)?;
            let p = self.slope_2.checked_mul(q)?;
            s.checked_add(p)
        }
    }

    /// The rate at which deposits accrue interest, given the borrow rate.
    pub fn get_liquidity_rate(&self, borrow_rate: Decimal, current_utilization_rate: Decimal, reserve_factor: Decimal) -> (r: Result<Decimal, MathError>)
        ensures
            r is Ok <==> spec_liquidity_rate(borrow_rate.val(), current_utilization_rate.val(), reserve_factor.val()) is Some,
            r matches Ok(d) ==> Some(d.val()) == spec_liquidity_rate(borrow_rate.val(), current_utilization_rate.val(), reserve_factor.val()),
    {
        let p = borrow_rate.checked_mul(current_utilization_rate)?;
        let keep = Decimal::one().checked_sub(reserve_factor)?;
        p.checked_mul(keep)
    }
}

/// An asset's money market.
#[derive(Clone, Debug)]
pub struct Market {
    /// Market index (bit position in the users' bitmaps)
    pub index: u32,
    pub denom: String,
    /// Address of the interest-bearing token that represents deposits
    pub ma_token_address: String,
    pub borrow_index: Decimal,
    pub liquidity_index: Decimal,
    pub borrow_rate: Decimal,
    pub liquidity_rate: Decimal,
    pub max_loan_to_value: Decimal,
    /// Share of the borrow interest that goes to the protocol
    pub reserve_factor: Decimal,
    /// Timestamp (seconds) when the indices were last brought up to date
    pub indexes_last_updated: u64,
    /// Total debt in the market, in scaled units
    pub debt_total_scaled: u128,
    pub liquidation_threshold: Decimal,
    pub liquidation_bonus: Decimal,
    pub interest_rate_model: InterestRateModel,
    pub deposit_enabled: bool,
    pub borrow_enabled: bool,
    pub deposit_cap: u128,
}

/// The outcome of `Market::validate`, checking the parameters in order.
pub open spec fn spec_market_validation(m: Market) -> Result<(), ValidationError> {
    if !le_one(m.max_loan_to_value) {
        spec_param_le_one(m.max_loan_to_value, ParamName::MaxLoanToValue)
    } else if !le_one(m.reserve_factor) {
        spec_param_le_one(m.reserve_factor, ParamName::ReserveFactor)
    } else if !le_one(m.liquidation_threshold) {
        spec_param_le_one(m.liquidation_threshold, ParamName::LiquidationThreshold)
    } else if !le_one(m.liquidation_bonus) {
        spec_param_le_one(m.liquidation_bonus, ParamName::LiquidationBonus)
    } else if m.liquidation_threshold.val() <= m.max_loan_to_value.val() {
        Err(ValidationError::InvalidParam {
            param_name: ParamName::LiquidationThreshold,
            invalid_value: m.liquidation_threshold,
            predicate: Predicate::GtMaxLtv(m.max_loan_to_value),
        })
    } else {
        spec_param_le_one(m.interest_rate_model.optimal_utilization_rate, ParamName::OptimalUtilizationRate)
    }
}

impl Market {
    /// A copy of the market.
    pub fn copy(&self) -> (r: Market)
        ensures
            r == *self,
    {
        Market {
            index: self.index,
            denom: self.denom.clone(),
            ma_token_address: self.ma_token_address.clone(),
            borrow_index: self.borrow_index,
            liquidity_index: self.liquidity_index,
            borrow_rate: self.borrow_rate,
            liquidity_rate: self.liquidity_rate,
            max_loan_to_value: self.max_loan_to_value,
            reserve_factor: self.reserve_factor,
            indexes_last_updated: self.indexes_last_updated,
            debt_total_scaled: self.debt_total_scaled,
            liquidation_threshold: self.liquidation_threshold,
            liquidation_bonus: self.liquidation_bonus,
            interest_rate_model: self.interest_rate_model,
            deposit_enabled: self.deposit_enabled,
            borrow_enabled: self.borrow_enabled,
            deposit_cap: self.deposit_cap,
        }
    }

    /// The market's parameters are within bounds.
    pub open spec fn valid(self) -> bool {
        spec_market_validation(self) is Ok
    }

    pub fn validate(&self) -> (r: Result<(), ValidationError>)
        ensures
            r == spec_market_validation(*self),
            r is Ok <==> self.valid(),
    {
        decimal_param_le_one(self.max_loan_to_value, ParamName::MaxLoanToValue)?;
        decimal_param_le_one(self.reserve_factor, ParamName::ReserveFactor)?;
        decimal_param_le_one(self.liquidation_threshold, ParamName::LiquidationThreshold)?;
        decimal_param_le_one(self.liquidation_bonus, ParamName::LiquidationBonus)?;
        if self.liquidation_threshold.atomics <= self.max_loan_to_value.atomics {
            return Err(ValidationError::InvalidParam {
                param_name: ParamName::LiquidationThreshold,
                invalid_value: self.liquidation_threshold,
                predicate: Predicate::GtMaxLtv(self.max_loan_to_value),
            });
        }
        self.interest_rate_model.validate()
    }
}

/// Validity bounds that hold of every market that passed validation.
pub proof fn lemma_valid_market_bounds(m: Market)
    requires
        m.valid(),
    ensures
        m.max_loan_to_value.val() < m.liquidation_threshold.val() <= DECIMAL_FRACTIONAL,
        m.reserve_factor.val() <= DECIMAL_FRACTIONAL,
        m.liquidation_bonus.val() <= DECIMAL_FRACTIONAL,
        m.interest_rate_model.valid(),
{
}

/// The red bank's configuration.
#[derive(Clone, Debug)]
pub struct Config {
    pub owner: String,
    pub address_provider_address: String,
    pub ma_token_code_id: u64,
    /// Maximum share of a debt that one liquidation may repay
    pub close_factor: Decimal,
}

impl Config {
    pub open spec fn valid(self) -> bool {
        le_one(self.close_factor)
    }

    pub fn validate(&self) -> (r: Result<(), ValidationError>)
        ensures
            r == spec_param_le_one(self.close_factor, ParamName::CloseFactor),
            r is Ok <==> self.valid(),
    {
        decimal_param_le_one(self.close_factor, ParamName::CloseFactor)
    }
}


/// Scaling by a larger factor gives a larger amount.
proof fn lemma_mul_floor_monotone(a: int, d1: int, d2: int)
    requires
        a >= 0,
        0 <= d1 <= d2,
    ensures
        spec_mul_floor(a, d1) <= spec_mul_floor(a, d2),
{
    assert(a * d1 <= a * d2) by (nonlinear_arith)
        requires
            a >= 0,
            d1 <= d2,
    ;
    crate::arith::lemma_div_monotone(a * d1, a * d2, DECIMAL_FRACTIONAL as int);
}

/// A larger numerator gives a larger ratio.
proof fn lemma_ratio_monotone(n1: int, n2: int, d: int)
    requires
        0 <= n1 <= n2,
        d > 0,
    ensures
        spec_ratio(n1, d) <= spec_ratio(n2, d),
{
    crate::arith::lemma_mul_monotone(n1, n2, DECIMAL_FRACTIONAL as int);
    crate::arith::lemma_div_monotone(n1 * DECIMAL_FRACTIONAL, n2 * DECIMAL_FRACTIONAL, d);
}

/// The borrow rate never falls as utilization rises.
pub proof fn lemma_borrow_rate_monotone(m: InterestRateModel, u1: int, u2: int)
    requires
        0 <= u1 <= u2,
    ensures
        (spec_borrow_rate(m, u1) is Some && spec_borrow_rate(m, u2) is Some)
            ==> spec_borrow_rate(m, u1).unwrap() <= spec_borrow_rate(m, u2).unwrap(),
{
    let opt = m.optimal_utilization_rate.val();
    let s1 = m.slope_1.val();
    if spec_borrow_rate(m, u1) is Some && spec_borrow_rate(m, u2) is Some {
        if u2 <= opt {
            if u1 > 0 {
                lemma_ratio_monotone(u1, u2, opt);
                lemma_mul_floor_monotone(s1, spec_ratio(u1, opt), spec_ratio(u2, opt));
            } else if u2 > 0 {
                vstd::arithmetic::div_mod::lemma_div_pos_is_pos(u2 * DECIMAL_FRACTIONAL, opt);
                lemma_mul_floor_le_amount(s1, 0);
                lemma_mul_floor_monotone(s1, 0, spec_ratio(u2, opt));
            }
        } else if u1 <= opt {
            if u1 > 0 {
                lemma_ratio_monotone(u1, opt, opt);
                crate::arith::lemma_mul_div_cancel(DECIMAL_FRACTIONAL as int, opt);
                vstd::arithmetic::mul::lemma_mul_is_commutative(opt, DECIMAL_FRACTIONAL as int);
                lemma_mul_floor_le_amount(s1, spec_ratio(u1, opt));
            }
        } else {
            lemma_ratio_monotone(u1 - opt, u2 - opt, DECIMAL_FRACTIONAL - opt);
            lemma_mul_floor_monotone(m.slope_2.val(), spec_ratio(u1 - opt, DECIMAL_FRACTIONAL - opt),
                spec_ratio(u2 - opt, DECIMAL_FRACTIONAL - opt));
        }
    }
}

/// Depositors never earn more than borrowers pay: at a utilization and a reserve factor of at
/// most one, the liquidity rate is computable and at most the borrow rate.
pub proof fn lemma_liquidity_rate_at_most_borrow_rate(borrow_rate: u128, u: int, reserve_factor: int)
    requires
        0 <= u <= DECIMAL_FRACTIONAL,
        0 <= reserve_factor <= DECIMAL_FRACTIONAL,
    ensures
        spec_liquidity_rate(borrow_rate as int, u, reserve_factor) matches Some(l) && 0 <= l <= borrow_rate,
{
    lemma_mul_floor_le_amount(borrow_rate as int, u);
    let p = spec_mul_floor(borrow_rate as int, u);
    lemma_mul_floor_le_amount(p, DECIMAL_FRACTIONAL - reserve_factor);
}

/// The kinked model's borrow rate in closed form, over all utilizations: the base rate at zero
/// utilization; up to the optimum, the base plus `slope_1` times the share of the optimum
/// reached; above it, the base plus `slope_1` plus `slope_2` times the share of the headroom
/// above the optimum that is used (each quotient and product rounded down). So it is never below
/// the base rate, and at the optimum it is the base plus `slope_1`.
pub proof fn lemma_borrow_rate_closed_form(m: InterestRateModel, u: int)
    requires
        0 <= u,
    ensures
        spec_borrow_rate(m, 0) == Some(m.base.val()),
        spec_borrow_rate(m, u) matches Some(r) ==> {
            let d = DECIMAL_FRACTIONAL as int;
            let opt = m.optimal_utilization_rate.val();
            &&& r >= m.base.val()
            &&& (0 < u <= opt ==> r == m.base.val() + m.slope_1.val() * (u * d / opt) / d)
            &&& (0 < u == opt ==> r == m.base.val() + m.slope_1.val())
            &&& (u > opt ==> r == m.base.val() + m.slope_1.val() + m.slope_2.val() * ((u - opt) * d / (d - opt)) / d)
        },
{
    let d = DECIMAL_FRACTIONAL as int;
    let opt = m.optimal_utilization_rate.val();
    let s1 = m.slope_1.val();
    let s2 = m.slope_2.val();
    if spec_borrow_rate(m, u) is Some {
        if 0 < u && u <= opt {
            let q = u * d / opt;
            assert(u * d >= 0) by (nonlinear_arith) requires u >= 0, d > 0;
            vstd::arithmetic::div_mod::lemma_div_pos_is_pos(u * d, opt);
            assert(s1 * q >= 0) by (nonlinear_arith) requires s1 >= 0, q >= 0;
            vstd::arithmetic::div_mod::lemma_div_pos_is_pos(s1 * q, d);
            if u == opt {
                crate::arith::lemma_mul_div_cancel(d, opt);
                vstd::arithmetic::mul::lemma_mul_is_commutative(opt, d);
                assert(q == d);
                crate::arith::lemma_mul_div_cancel(s1, d);
            }
        } else if u > opt {
            let q = (u - opt) * d / (d - opt);
            assert(d - opt > 0);
            assert((u - opt) * d >= 0) by (nonlinear_arith) requires u - opt > 0, d > 0;
            vstd::arithmetic::div_mod::lemma_div_pos_is_pos((u - opt) * d, d - opt);
            assert(s2 * q >= 0) by (nonlinear_arith) requires s2 >= 0, q >= 0;
            vstd::arithmetic::div_mod::lemma_div_pos_is_pos(s2 * q, d);
        }
    }
}

} // verus!
