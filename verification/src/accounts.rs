//! A user's position across the red bank's markets, valued in the base asset at oracle prices.
use vstd::prelude::*;
use crate::decimal::{Decimal, MathError, fits_u128, mul_floor, spec_mul_floor, spec_ratio};
use crate::error::ContractError;
use crate::interest_rates::{
    get_underlying_debt_amount, get_underlying_liquidity_amount, spec_underlying_debt_amount,
    spec_underlying_liquidity_amount,
};
use crate::market::Market;
use crate::state::{Collateral, Debt};

verus! {

/// Whether the user has collateralized debt, with the health factor when so.
#[derive(Clone, Copy, Debug, PartialEq, Eq, Structural)]
pub enum HealthStatus {
    NotBorrowing,
    Borrowing(Decimal),
}

/// A user's amounts in one asset, with the parameters and price they are valued at.
#[derive(Clone, Debug)]
pub struct UserAssetPosition {
    pub denom: String,
    pub collateral_amount: u128,
    pub debt_amount: u128,
    pub uncollateralized_debt: bool,
    pub max_ltv: Decimal,
    pub liquidation_threshold: Decimal,
    pub asset_price: Decimal,
}

/// A user's totals across markets, in the base asset.
#[derive(Debug)]
pub struct UserPosition {
    pub total_collateral_in_base_asset: u128,
    pub total_debt_in_base_asset: u128,
    pub total_collateralized_debt_in_base_asset: u128,
    pub max_debt_in_base_asset: u128,
    pub weighted_liquidation_threshold_in_base_asset: u128,
    pub health_status: HealthStatus,
    pub asset_positions: Vec<UserAssetPosition>,
}

/// What is stored about a user in one market the user has a position in.
#[derive(Debug)]
pub struct AssetPositionInput {
    pub denom: String,
    pub market: Market,
    pub collateral: Option<Collateral>,
    pub debt: Option<Debt>,
    /// The oracle's price of the asset
    pub price: Decimal,
}

/// The underlying collateral amount: only enabled, non-empty collateral counts.
pub open spec fn spec_collateral_amount(inp: AssetPositionInput, timestamp: int) -> Option<int> {
    match inp.collateral {
        Some(c) => if c.enabled && c.amount_scaled != 0 {
            spec_underlying_liquidity_amount(c.amount_scaled as int, inp.market, timestamp)
        } else {
            Some(0)
        },
        None => Some(0),
    }
}

/// The underlying debt amount and whether it is uncollateralized.
pub open spec fn spec_debt_amount(inp: AssetPositionInput, timestamp: int) -> Option<(int, bool)> {
    match inp.debt {
        Some(d) => if d.amount_scaled != 0 {
            match spec_underlying_debt_amount(d.amount_scaled as int, inp.market, timestamp) {
                Some(a) => Some((a, d.uncollateralized)),
                None => None,
            }
        } else {
            Some((0, false))
        },
        None => Some((0, false)),
    }
}

/// The position in one asset at `timestamp`.
pub open spec fn spec_asset_position(inp: AssetPositionInput, timestamp: int) -> Option<UserAssetPosition> {
    match (spec_collateral_amount(inp, timestamp), spec_debt_amount(inp, timestamp)) {
        (Some(c), Some(d)) => Some(UserAssetPosition {
            denom: inp.denom,
            collateral_amount: c as u128,
            debt_amount: d.0 as u128,
            uncollateralized_debt: d.1,
            max_ltv: inp.market.max_loan_to_value,
            liquidation_threshold: inp.market.liquidation_threshold,
            asset_price: inp.price,
        }),
        _ => None,
    }
}

/// The positions in all the given assets, in order.
pub open spec fn spec_asset_positions(inputs: Seq<AssetPositionInput>, timestamp: int) -> Option<Seq<UserAssetPosition>>
    decreases inputs.len(),
{
    if inputs.len() == 0 {
        Some(Seq::empty())
    } else {
        match (spec_asset_positions(inputs.drop_last(), timestamp), spec_asset_position(inputs.last(), timestamp)) {
            (Some(ps), Some(p)) => Some(ps.push(p)),
            _ => None,
        }
    }
}

proof fn lemma_asset_positions_none_propagates(inputs: Seq<AssetPositionInput>, k: int, timestamp: int)
    requires
        0 <= k <= inputs.len(),
    ensures
        spec_asset_positions(inputs.take(k), timestamp) is None ==> spec_asset_positions(inputs, timestamp) is None,
    decreases inputs.len() - k,
{
    if k < inputs.len() {
        assert(inputs.take(k + 1).drop_last() =~= inputs.take(k));
        lemma_asset_positions_none_propagates(inputs, k + 1, timestamp);
    } else {
        assert(inputs.take(k) =~= inputs);
    }
}

/// The user's positions in the assets the user has collateral or debt in (`inputs`: the
/// market, stored records and price of each). Collateral counts only while enabled.
pub fn get_user_asset_positions(inputs: &Vec<AssetPositionInput>, block_time: u64) -> (r: Result<Vec<UserAssetPosition>, ContractError>)
    ensures
        r is Ok <==> spec_asset_positions(inputs@, block_time as int) is Some,
        r matches Ok(ps) ==> spec_asset_positions(inputs@, block_time as int) == Some(ps@),
{
    let n = inputs.len();
    let mut out: Vec<UserAssetPosition> = Vec::new();
    let mut i: usize = 0;
    while i < n
        invariant
            n == inputs@.len(),
            i <= n,
            spec_asset_positions(inputs@.take(i as int), block_time as int) == Some(out@),
        decreases n - i,
    {
        proof {
            assert(inputs@.take(i as int + 1).drop_last() =~= inputs@.take(i as int));
            lemma_asset_positions_none_propagates(inputs@, i as int + 1, block_time as int);
        }
        let inp = &inputs[i];
        let mut collateral_amount: u128 = 0;
        if let Some(collateral) = &inp.collateral {
            if collateral.enabled && collateral.amount_scaled != 0 {
                collateral_amount = get_underlying_liquidity_amount(collateral.amount_scaled, &inp.market, block_time)?;
            }
        }
        let mut debt_amount: u128 = 0;
        let mut uncollateralized_debt = false;
        if let Some(debt) = &inp.debt {
            if debt.amount_scaled != 0 {
                debt_amount = get_underlying_debt_amount(debt.amount_scaled, &inp.market, block_time)?;
                uncollateralized_debt = debt.uncollateralized;
            }
        }
        let p = UserAssetPosition {
            denom: inp.denom.clone(),
            collateral_amount,
            debt_amount,
            uncollateralized_debt,
            max_ltv: inp.market.max_loan_to_value,
            liquidation_threshold: inp.market.liquidation_threshold,
            asset_price: inp.price,
        };
        proof {
            assert(p.denom == inputs@[i as int].denom);
            assert(inputs@.take(i as int + 1).last() == inputs@[i as int]);
        }
        out.push(p);
        i = i + 1;
    }
    proof {
        assert(inputs@.take(n as int) =~= inputs@);
    }
    Ok(out)
}

/// The running totals over positions: collateral, debt, collateralized debt, max debt and
/// liquidation-threshold-weighted collateral, all in the base asset; `None` on overflow.
pub open spec fn spec_position_totals(ps: Seq<UserAssetPosition>) -> Option<(int, int, int, int, int)>
    decreases ps.len(),
{
    if ps.len() == 0 {
        Some((0, 0, 0, 0, 0))
    } else {
        match spec_position_totals(ps.drop_last()) {
            Some(t) => {
                let p = ps.last();
                let cv = spec_mul_floor(p.collateral_amount as int, p.asset_price.val());
                let mv = spec_mul_floor(cv, p.max_ltv.val());
                let lv = spec_mul_floor(cv, p.liquidation_threshold.val());
                let dv = spec_mul_floor(p.debt_amount as int, p.asset_price.val());
                let cd = if p.uncollateralized_debt { t.2 } else { t.2 + dv };
                if fits_u128(cv) && fits_u128(t.0 + cv) && fits_u128(mv) && fits_u128(t.3 + mv) && fits_u128(lv)
                    && fits_u128(t.4 + lv) && fits_u128(dv) && fits_u128(t.1 + dv) && fits_u128(cd) {
                    Some((t.0 + cv, t.1 + dv, cd, t.3 + mv, t.4 + lv))
                } else {
                    None
                }
            },
            None => None,
        }
    }
}

proof fn lemma_position_totals_none_propagates(ps: Seq<UserAssetPosition>, k: int)
    requires
        0 <= k <= ps.len(),
    ensures
        spec_position_totals(ps.take(k)) is None ==> spec_position_totals(ps) is None,
    decreases ps.len() - k,
{
    if k < ps.len() {
        assert(ps.take(k + 1).drop_last() =~= ps.take(k));
        lemma_position_totals_none_propagates(ps, k + 1);
    } else {
        assert(ps.take(k) =~= ps);
    }
}

/// Not borrowing without collateralized debt; otherwise the health factor
/// `weighted liquidation threshold / collateralized debt`.
pub open spec fn spec_health_status(weighted_liquidation_threshold: int, collateralized_debt: int) -> Option<HealthStatus> {
    if collateralized_debt == 0 {
        Some(HealthStatus::NotBorrowing)
    } else if spec_ratio(weighted_liquidation_threshold, collateralized_debt) <= u128::MAX {
        Some(HealthStatus::Borrowing(Decimal { atomics: spec_ratio(weighted_liquidation_threshold, collateralized_debt) as u128 }))
    } else {
        None
    }
}

fn checked_sum(a: u128, b: u128) -> (r: Result<u128, MathError>)
    ensures
        r is Ok <==> a + b <= u128::MAX,
        r matches Ok(v) ==> v == a + b,
{
    match a.checked_add(b) {
        Some(v) => Ok(v),
        None => Err(MathError::Overflow),
    }
}

/// The user's totals and health over the given positions. Debt taken under an
/// uncollateralized loan limit counts in the total debt, not in the health factor.
pub fn compute_user_position(asset_positions: Vec<UserAssetPosition>) -> (r: Result<UserPosition, MathError>)
    ensures
        r is Ok <==> (spec_position_totals(asset_positions@) matches Some(t) && spec_health_status(t.4, t.2) is Some),
        r matches Ok(u) ==> {
            let t = spec_position_totals(asset_positions@)->0;
            &&& u.total_collateral_in_base_asset == t.0
            &&& u.total_debt_in_base_asset == t.1
            &&& u.total_collateralized_debt_in_base_asset == t.2
            &&& u.max_debt_in_base_asset == t.3
            &&& u.weighted_liquidation_threshold_in_base_asset == t.4
            &&& Some(u.health_status) == spec_health_status(t.4, t.2)
            &&& u.asset_positions@ == asset_positions@
        },
{
    let mut total_collateral: u128 = 0;
    let mut total_debt: u128 = 0;
    let mut total_collateralized_debt: u128 = 0;
    let mut max_debt: u128 = 0;
    let mut weighted_liquidation_threshold: u128 = 0;
    let n = asset_positions.len();
    let mut i: usize = 0;
    while i < n
        invariant
            n == asset_positions@.len(),
            i <= n,
            spec_position_totals(asset_positions@.take(i as int)) == Some((total_collateral as int, total_debt as int,
                total_collateralized_debt as int, max_debt as int, weighted_liquidation_threshold as int)),
        decreases n - i,
    {
        proof {
            assert(asset_positions@.take(i as int + 1).drop_last() =~= asset_positions@.take(i as int));
            assert(asset_positions@.take(i as int + 1).last() == asset_positions@[i as int]);
            lemma_position_totals_none_propagates(asset_positions@, i as int + 1);
        }
        let p = &asset_positions[i];
        let collateral_value = mul_floor(p.collateral_amount, p.asset_price)?;
        total_collateral = checked_sum(total_collateral, collateral_value)?;
        let max_debt_value = mul_floor(collateral_value, p.max_ltv)?;
        max_debt = checked_sum(max_debt, max_debt_value)?;
        let threshold_value = mul_floor(collateral_value, p.liquidation_threshold)?;
        weighted_liquidation_threshold = checked_sum(weighted_liquidation_threshold, threshold_value)?;
        let debt_value = mul_floor(p.debt_amount, p.asset_price)?;
        total_debt = checked_sum(total_debt, debt_value)?;
        if !p.uncollateralized_debt {
            total_collateralized_debt = checked_sum(total_collateralized_debt, debt_value)?;
        }
        i = i + 1;
    }
    proof {
        assert(asset_positions@.take(n as int) =~= asset_positions@);
    }
    let health_status = if total_collateralized_debt == 0 {
        HealthStatus::NotBorrowing
    } else {
        HealthStatus::Borrowing(Decimal::from_ratio(weighted_liquidation_threshold, total_collateralized_debt)?)
    };
    Ok(UserPosition {
        total_collateral_in_base_asset: total_collateral,
        total_debt_in_base_asset: total_debt,
        total_collateralized_debt_in_base_asset: total_collateralized_debt,
        max_debt_in_base_asset: max_debt,
        weighted_liquidation_threshold_in_base_asset: weighted_liquidation_threshold,
        health_status,
        asset_positions,
    })
}

/// The user's position at `block_time` from what is stored about the user in each market the
/// user has a position in (see `get_user_asset_positions`).
pub fn get_user_position(inputs: &Vec<AssetPositionInput>, block_time: u64) -> (r: Result<UserPosition, ContractError>)
    ensures
        r is Ok <==> (spec_asset_positions(inputs@, block_time as int) matches Some(ps)
            && spec_position_totals(ps) matches Some(t) && spec_health_status(t.4, t.2) is Some),
        r matches Ok(u) ==> {
            let ps = spec_asset_positions(inputs@, block_time as int)->0;
            let t = spec_position_totals(ps)->0;
            &&& u.asset_positions@ == ps
            &&& u.total_collateral_in_base_asset == t.0
            &&& u.total_debt_in_base_asset == t.1
            &&& u.total_collateralized_debt_in_base_asset == t.2
            &&& u.max_debt_in_base_asset == t.3
            &&& u.weighted_liquidation_threshold_in_base_asset == t.4
            &&& Some(u.health_status) == spec_health_status(t.4, t.2)
        },
{
    let positions = get_user_asset_positions(inputs, block_time)?;
    match compute_user_position(positions) {
        Ok(u) => Ok(u),
        Err(e) => Err(ContractError::Math(e)),
    }
}

/// The first position in `denom`, if any.
pub open spec fn first_position_with_denom(ps: Seq<UserAssetPosition>, denom: Seq<char>, i: int) -> bool {
    &&& 0 <= i < ps.len()
    &&& ps[i].denom@ == denom
    &&& forall|j: int| 0 <= j < i ==> (#[trigger] ps[j]).denom@ != denom
}

impl UserPosition {
    /// The price the position was valued at for `denom`.
    pub fn get_asset_price(&self, denom: &String) -> (r: Result<Decimal, ContractError>)
        ensures
            r is Ok <==> exists|i: int| 0 <= i < self.asset_positions@.len() && (#[trigger] self.asset_positions@[i]).denom@ == denom@,
            r matches Err(e) ==> (e matches ContractError::PriceNotFound { denom: d } && d@ == denom@),
            r matches Ok(p) ==> exists|i: int| first_position_with_denom(self.asset_positions@, denom@, i)
                && p == #[trigger] self.asset_positions@[i].asset_price,
    {
        let n = self.asset_positions.len();
        let mut i: usize = 0;
        while i < n
            invariant
                n == self.asset_positions@.len(),
                i <= n,
                forall|j: int| 0 <= j < i ==> (#[trigger] self.asset_positions@[j]).denom@ != denom@,
            decreases n - i,
        {
            if self.asset_positions[i].denom == *denom {
                proof {
                    assert(first_position_with_denom(self.asset_positions@, denom@, i as int));
                }
                return Ok(self.asset_positions[i].asset_price);
            }
            i = i + 1;
        }
        Err(ContractError::PriceNotFound { denom: denom.clone() })
    }
}

} // verus!
