//! Account health: the value of a user's collateral against the value of their debt.
use vstd::prelude::*;
use crate::decimal::{
    Decimal, MathError, DECIMAL_FRACTIONAL, fits_u128, opt_add, opt_dec_div, opt_dec_mul,
};

verus! {

/// One asset of a user's account, in the units the health computation uses.
#[derive(Clone, Debug)]
pub struct HealthPosition {
    pub denom: String,
    pub collateral_amount: Decimal,
    pub debt_amount: Decimal,
    pub price: Decimal,
    pub max_ltv: Decimal,
    pub liquidation_threshold: Decimal,
}

/// Aggregated values of an account and its health factors (present only when there is debt).
#[derive(Clone, Copy, Debug, PartialEq, Eq, Structural)]
pub struct Health {
    pub total_debt_value: Decimal,
    pub total_collateral_value: Decimal,
    pub max_ltv_adjusted_collateral: Decimal,
    pub lqdt_threshold_adjusted_collateral: Decimal,
    pub max_ltv_health_factor: Option<Decimal>,
    pub liquidation_health_factor: Option<Decimal>,
}

/// The running totals (atomics): debt value, collateral value, max-LTV-weighted collateral,
/// liquidation-threshold-weighted collateral; `None` on overflow.
pub open spec fn spec_health_totals(ps: Seq<HealthPosition>) -> Option<(int, int, int, int)>
    decreases ps.len(),
{
    if ps.len() == 0 {
        Some((0, 0, 0, 0))
    } else {
        match spec_health_totals(ps.drop_last()) {
            Some(t) => {
                let p = ps.last();
                match (opt_dec_mul(p.collateral_amount.val(), p.price.val()), opt_dec_mul(p.debt_amount.val(), p.price.val())) {
                    (Some(cv), Some(dv)) => match (opt_dec_mul(cv, p.max_ltv.val()), opt_dec_mul(cv, p.liquidation_threshold.val())) {
                        (Some(mv), Some(lv)) => {
                            if fits_u128(t.0 + dv) && fits_u128(t.1 + cv) && fits_u128(t.2 + mv) && fits_u128(t.3 + lv) {
                                Some((t.0 + dv, t.1 + cv, t.2 + mv, t.3 + lv))
                            } else {
                                None
                            }
                        },
                        _ => None,
                    },
                    _ => None,
                }
            },
            None => None,
        }
    }
}

/// The health of an account with the given positions.
pub open spec fn spec_health(ps: Seq<HealthPosition>) -> Option<Health> {
    match spec_health_totals(ps) {
        Some(t) => {
            let base = Health {
                total_debt_value: Decimal { atomics: t.0 as u128 },
                total_collateral_value: Decimal { atomics: t.1 as u128 },
                max_ltv_adjusted_collateral: Decimal { atomics: t.2 as u128 },
                lqdt_threshold_adjusted_collateral: Decimal { atomics: t.3 as u128 },
                max_ltv_health_factor: None,
                liquidation_health_factor: None,
            };
            if t.0 > 0 {
                match (opt_dec_div(t.2, t.0), opt_dec_div(t.3, t.0)) {
                    (Some(m), Some(l)) => Some(Health {
                        max_ltv_health_factor: Some(Decimal { atomics: m as u128 }),
                        liquidation_health_factor: Some(Decimal { atomics: l as u128 }),
                        ..base
                    }),
                    _ => None,
                }
            } else {
                Some(base)
            }
        },
        None => None,
    }
}

impl Health {
    /// The account may be liquidated: its liquidation health factor is below 1.
    pub open spec fn spec_is_liquidatable(self) -> bool {
        match self.liquidation_health_factor {
            Some(hf) => hf.val() < DECIMAL_FRACTIONAL,
            None => false,
        }
    }

    /// The account's debt exceeds what its collateral allows to borrow.
    pub open spec fn spec_is_above_max_ltv(self) -> bool {
        match self.max_ltv_health_factor {
            Some(hf) => hf.val() < DECIMAL_FRACTIONAL,
            None => false,
        }
    }

    pub fn is_liquidatable(&self) -> (r: bool)
        ensures
            r == self.spec_is_liquidatable(),
    {
        match self.liquidation_health_factor {
            Some(hf) => hf.atomics < DECIMAL_FRACTIONAL,
            None => false,
        }
    }

    pub fn is_above_max_ltv(&self) -> (r: bool)
        ensures
            r == self.spec_is_above_max_ltv(),
    {
        match self.max_ltv_health_factor {
            Some(hf) => hf.atomics < DECIMAL_FRACTIONAL,
            None => false,
        }
    }

    /// Computes the totals over all positions and, if there is debt, the two health factors.
    pub fn compute_health(positions: &Vec<HealthPosition>) -> (r: Result<Health, MathError>)
        ensures
            r is Ok <==> spec_health(positions@) is Some,
            r matches Ok(h) ==> spec_health(positions@) == Some(h),
    {
        let mut debt: u128 = 0;
        let mut collateral: u128 = 0;
        let mut max_ltv_collateral: u128 = 0;
        let mut lqdt_collateral: u128 = 0;
        let n = positions.len();
        let mut i: usize = 0;
        while i < n
            invariant
                n == positions@.len(),
                i <= n,
                spec_health_totals(positions@.take(i as int)) == Some((debt as int, collateral as int, max_ltv_collateral as int, lqdt_collateral as int)),
            decreases n - i,
        {
            proof {
                assert(positions@.take(i as int + 1).drop_last() =~= positions@.take(i as int));
                lemma_health_totals_none_extends(positions@, i as int + 1);
                lemma_health_totals_none_propagates(positions@, i as int + 1);
            }
            let p = &positions[i];
            let collateral_value = p.collateral_amount.checked_mul(p.price)?;
            let debt_value = p.debt_amount.checked_mul(p.price)?;
            let mv = collateral_value.checked_mul(p.max_ltv)?;
            let lv = collateral_value.checked_mul(p.liquidation_threshold)?;
            debt = match debt.checked_add(debt_value.atomics) { Some(v) => v, None => return Err(MathError::Overflow) };
            collateral = match collateral.checked_add(collateral_value.atomics) { Some(v) => v, None => return Err(MathError::Overflow) };
            max_ltv_collateral = match max_ltv_collateral.checked_add(mv.atomics) { Some(v) => v, None => return Err(MathError::Overflow) };
            lqdt_collateral = match lqdt_collateral.checked_add(lv.atomics) { Some(v) => v, None => return Err(MathError::Overflow) };
            i = i + 1;
        }
        assert(positions@.take(n as int) =~= positions@);
        let mut health = Health {
            total_debt_value: Decimal::raw(debt),
            total_collateral_value: Decimal::raw(collateral),
            max_ltv_adjusted_collateral: Decimal::raw(max_ltv_collateral),
            lqdt_threshold_adjusted_collateral: Decimal::raw(lqdt_collateral),
            max_ltv_health_factor: None,
            liquidation_health_factor: None,
        };
        // If there aren't any debts a health factor can't be computed (divide by zero)
        if debt > 0 {
            let m = health.max_ltv_adjusted_collateral.checked_div(health.total_debt_value)?;
            let l = health.lqdt_threshold_adjusted_collateral.checked_div(health.total_debt_value)?;
            health.max_ltv_health_factor = Some(m);
            health.liquidation_health_factor = Some(l);
        }
        Ok(health)
    }
}

/// Once the totals of a prefix overflow, the totals of every longer prefix do too.
proof fn lemma_health_totals_none_extends(ps: Seq<HealthPosition>, k: int)
    requires
        0 < k <= ps.len(),
    ensures
        spec_health_totals(ps.take(k)) is Some ==> spec_health_totals(ps.take(k - 1)) is Some,
{
    assert(ps.take(k).drop_last() =~= ps.take(k - 1));
}

/// Once the totals of a prefix overflow, the totals of the whole sequence do too.
proof fn lemma_health_totals_none_propagates(ps: Seq<HealthPosition>, k: int)
    requires
        0 <= k <= ps.len(),
    ensures
        spec_health_totals(ps.take(k)) is None ==> spec_health_totals(ps) is None,
    decreases ps.len() - k,
{
    if k < ps.len() {
        lemma_health_totals_none_extends(ps, k + 1);
        lemma_health_totals_none_propagates(ps, k + 1);
    } else {
        assert(ps.take(k) =~= ps);
    }
}

} // verus!
