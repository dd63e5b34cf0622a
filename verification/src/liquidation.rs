//! How much debt a liquidator repays and how much collateral they receive.
use vstd::prelude::*;
use crate::arith::{lemma_floor_mul_le, lemma_mul_monotone};
use crate::decimal::{
    Decimal, MathError, DECIMAL_FRACTIONAL, divide_uint128_by_decimal, fits_u128, mul_floor,
    spec_mul_floor, spec_ratio,
};

verus! {

/// Debt repaid, collateral liquidated and refund, as `liquidation_compute_amounts` computes
/// them; `None` where the computation overflows or divides by zero.
pub open spec fn spec_liquidation_amounts(
    collateral_price: int,
    debt_price: int,
    close_factor: int,
    user_collateral_balance: int,
    liquidation_bonus: int,
    user_debt_asset_total_debt: int,
    sent_debt_asset_amount: int,
) -> Option<(int, int, int)> {
    let max_repayable_debt = spec_mul_floor(user_debt_asset_total_debt, close_factor);
    let debt_to_repay = if sent_debt_asset_amount > max_repayable_debt { max_repayable_debt } else { sent_debt_asset_amount };
    let debt_in_base = spec_mul_floor(debt_to_repay, debt_price);
    let bonus_factor = DECIMAL_FRACTIONAL + liquidation_bonus;
    let collateral_in_base = spec_mul_floor(debt_in_base, bonus_factor);
    let collateral = spec_ratio(collateral_in_base, collateral_price);
    if !fits_u128(max_repayable_debt) || !fits_u128(debt_in_base) || !fits_u128(bonus_factor)
        || !fits_u128(collateral_in_base) || collateral_price == 0 || !fits_u128(collateral) {
        None
    } else if collateral > user_collateral_balance {
        let in_base = spec_mul_floor(user_collateral_balance, collateral_price);
        let in_debt_asset = spec_ratio(in_base, debt_price);
        let repay = spec_ratio(in_debt_asset, bonus_factor);
        if !fits_u128(in_base) || debt_price == 0 || !fits_u128(in_debt_asset) || !fits_u128(repay) {
            None
        } else {
            Some((repay, user_collateral_balance, sent_debt_asset_amount - repay))
        }
    } else {
        Some((debt_to_repay, collateral, sent_debt_asset_amount - debt_to_repay))
    }
}

/// When the collateral a repayment would buy exceeds the balance, the repayment recomputed
/// from the balance is no larger than the repayment first computed.
proof fn lemma_adjusted_repay_le(d: int, dp: int, cp: int, bb: int, bal: int)
    requires
        d >= 0,
        dp > 0,
        cp > 0,
        bb > 0,
        bal >= 0,
        bal < spec_ratio(spec_mul_floor(spec_mul_floor(d, dp), bb), cp),
    ensures
        spec_ratio(spec_ratio(spec_mul_floor(bal, cp), dp), bb) <= d,
{
    let f = DECIMAL_FRACTIONAL as int;
    let a = spec_mul_floor(d, dp);
    let x = spec_mul_floor(a, bb);
    let c0 = spec_ratio(x, cp);
    let y = spec_mul_floor(bal, cp);
    let z = spec_ratio(y, dp);
    let d2 = spec_ratio(z, bb);
    assert(d * dp >= 0) by (nonlinear_arith) requires d >= 0, dp > 0;
    lemma_floor_mul_le(d * dp, f);
    assert(a >= 0);
    assert(a * bb >= 0) by (nonlinear_arith) requires a >= 0, bb > 0;
    lemma_floor_mul_le(a * bb, f);
    assert(x >= 0);
    assert(x * f >= 0) by (nonlinear_arith) requires x >= 0, f > 0;
    lemma_floor_mul_le(x * f, cp);
    // (bal + 1) * cp <= c0 * cp <= x * f
    lemma_mul_monotone(bal + 1, c0, cp);
    assert(bal * cp < x * f) by (nonlinear_arith)
        requires
            (bal + 1) * cp <= c0 * cp,
            c0 * cp <= x * f,
            cp > 0,
    ;
    assert(bal * cp >= 0) by (nonlinear_arith) requires bal >= 0, cp > 0;
    lemma_floor_mul_le(bal * cp, f);
    assert(y < x) by (nonlinear_arith)
        requires
            y * f <= bal * cp,
            bal * cp < x * f,
            f > 0,
    ;
    assert(y >= 0);
    assert(y * f >= 0) by (nonlinear_arith) requires y >= 0, f > 0;
    lemma_floor_mul_le(y * f, dp);
    assert(z >= 0);
    assert(z * f >= 0) by (nonlinear_arith) requires z >= 0, f > 0;
    lemma_floor_mul_le(z * f, bb);
    assert(d2 >= 0);
    // d2 * bb * dp <= z * f * dp <= y * f * f <= x * f * f <= a * bb * f <= d * dp * bb
    assert(d2 * bb * dp <= d * dp * bb) by (nonlinear_arith)
        requires
            d2 * bb <= z * f,
            z * dp <= y * f,
            y <= x,
            x * f <= a * bb,
            a * f <= d * dp,
            f > 0,
            dp > 0,
            bb > 0,
            d2 >= 0,
            z >= 0,
            y >= 0,
            x >= 0,
            a >= 0,
    ;
    assert(d2 <= d) by (nonlinear_arith)
        requires
            d2 * bb * dp <= d * dp * bb,
            bb > 0,
            dp > 0,
    ;
}

/// Computes debt to repay (in debt asset), collateral to liquidate (in collateral asset) and
/// amount to refund the liquidator (in debt asset).
pub fn liquidation_compute_amounts(
    collateral_price: Decimal,
    debt_price: Decimal,
    close_factor: Decimal,
    user_collateral_balance: u128,
    liquidation_bonus: Decimal,
    user_debt_asset_total_debt: u128,
    sent_debt_asset_amount: u128,
) -> (r: Result<(u128, u128, u128), MathError>)
    ensures
        ({
            let s = spec_liquidation_amounts(collateral_price.val(), debt_price.val(), close_factor.val(),
                user_collateral_balance as int, liquidation_bonus.val(), user_debt_asset_total_debt as int,
                sent_debt_asset_amount as int);
            &&& (r is Ok <==> s is Some)
            &&& (r matches Ok(v) ==> s == Some((v.0 as int, v.1 as int, v.2 as int)))
        }),
        // only up to a fraction of the debt (the close factor) is repaid, never more than
        // was sent, and the rest of what was sent is refunded
        r matches Ok(v) ==> {
            &&& v.0 <= sent_debt_asset_amount
            &&& v.0 <= spec_mul_floor(user_debt_asset_total_debt as int, close_factor.val())
            &&& v.2 == sent_debt_asset_amount - v.0
            &&& v.1 <= user_collateral_balance
        },
{
    // Debt: Only up to a fraction of the total debt (determined by the close factor) can be
    // repayed.
    let max_repayable_debt = mul_floor(user_debt_asset_total_debt, close_factor)?;
    let mut debt_amount_to_repay = if sent_debt_asset_amount > max_repayable_debt {
        max_repayable_debt
    } else {
        sent_debt_asset_amount
    };
    let ghost d0 = debt_amount_to_repay;

    // Collateral: debt to repay in base asset times the liquidation bonus
    let debt_amount_to_repay_in_base_asset = mul_floor(debt_amount_to_repay, debt_price)?;
    let bonus_factor = Decimal::one().checked_add(liquidation_bonus)?;
    let collateral_amount_to_liquidate_in_base_asset = mul_floor(debt_amount_to_repay_in_base_asset, bonus_factor)?;
    let mut collateral_amount_to_liquidate = divide_uint128_by_decimal(collateral_amount_to_liquidate_in_base_asset, collateral_price)?;

    // If collateral amount to liquidate is higher than user_collateral_balance,
    // liquidate the full balance and adjust the debt amount to repay accordingly
    if collateral_amount_to_liquidate > user_collateral_balance {
        collateral_amount_to_liquidate = user_collateral_balance;
        let in_base = mul_floor(collateral_amount_to_liquidate, collateral_price)?;
        let in_debt_asset = divide_uint128_by_decimal(in_base, debt_price)?;
        debt_amount_to_repay = divide_uint128_by_decimal(in_debt_asset, bonus_factor)?;
        proof {
            lemma_adjusted_repay_le(d0 as int, debt_price.val(), collateral_price.val(), bonus_factor.val(), user_collateral_balance as int);
        }
    }

    let refund_amount = sent_debt_asset_amount - debt_amount_to_repay;

    Ok((debt_amount_to_repay, collateral_amount_to_liquidate, refund_amount))
}

} // verus!
