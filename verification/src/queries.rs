//! The red bank's read-only views over its records.
use vstd::prelude::*;
use crate::bits::{bit_is_set, get_bit};
use crate::decimal::{Decimal, DECIMAL_FRACTIONAL};
use crate::error::{ContractError, Record};
use crate::health::Health;
use crate::interest_rates::{get_underlying_debt_amount, spec_underlying_debt_amount};
use crate::market::Market;
use crate::positions::{
    MarketSnapshot, Position, compute_position_health, get_uncollaterized_debt, get_user_positions,
    spec_position_health, spec_user_positions,
};
use crate::state::{Debt, User};

verus! {

/// Number of items a page holds when no limit is given.
pub const DEFAULT_LIMIT: u32 = 5;
/// Largest number of items a page may hold.
pub const MAX_LIMIT: u32 = 10;

/// The size of a page of results: the requested limit (default 5), at most 10.
pub fn page_limit(limit: Option<u32>) -> (r: usize)
    ensures
        r == (match limit {
            Some(l) => if l < MAX_LIMIT { l } else { MAX_LIMIT },
            None => DEFAULT_LIMIT,
        }),
        r <= MAX_LIMIT,
{
    let l = match limit {
        Some(l) => l,
        None => DEFAULT_LIMIT,
    };
    if l < MAX_LIMIT { l as usize } else { MAX_LIMIT as usize }
}

/// A user's debt in one asset.
#[derive(Clone, Debug)]
pub struct UserAssetDebtResponse {
    pub denom: String,
    pub amount_scaled: u128,
    pub amount: u128,
}

/// A user's collateral flag in one asset.
#[derive(Clone, Debug)]
pub struct UserAssetCollateralResponse {
    pub denom: String,
    pub enabled: bool,
}

/// A market with the user's debt record in it, as read for the debt query.
#[derive(Clone, Debug)]
pub struct MarketDebt {
    pub denom: String,
    pub market: Market,
    pub debt: Option<Debt>,
}

/// The entry of the debt query for one market: `None` when it fails to compute.
pub open spec fn spec_asset_debt(u: User, md: MarketDebt, timestamp: int) -> Option<(u128, int)> {
    if md.market.index >= 128 {
        None
    } else if bit_is_set(u.borrowed_assets, md.market.index) {
        match md.debt {
            Some(d) => match spec_underlying_debt_amount(d.amount_scaled as int, md.market, timestamp) {
                Some(a) => Some((d.amount_scaled, a)),
                None => None,
            },
            None => None,
        }
    } else {
        Some((0, 0))
    }
}

/// The user's debt in each of the given markets (in market order): scaled and underlying
/// amounts, zero where the user does not borrow the asset.
pub fn query_user_debt(user: Option<User>, markets: &Vec<MarketDebt>, timestamp: u64) -> (r: Result<Vec<UserAssetDebtResponse>, ContractError>)
    ensures
        ({
            let u = match user { Some(u) => u, None => User { collateral_assets: 0, borrowed_assets: 0 } };
            &&& (r is Ok <==> forall|i: int| 0 <= i < markets@.len() ==> spec_asset_debt(u, #[trigger] markets@[i], timestamp as int) is Some)
            &&& (r matches Ok(v) ==> {
                &&& v@.len() == markets@.len()
                &&& forall|i: int| 0 <= i < markets@.len() ==> {
                    let e = #[trigger] v@[i];
                    &&& e.denom == markets@[i].denom
                    &&& spec_asset_debt(u, markets@[i], timestamp as int) == Some((e.amount_scaled, e.amount as int))
                }
            })
        }),
{
    let usr = match user {
        Some(u) => u,
        None => User::new(),
    };
    assert(usr == (match user { Some(u) => u, None => User { collateral_assets: 0, borrowed_assets: 0 } }));
    let mut debts: Vec<UserAssetDebtResponse> = Vec::new();
    let n = markets.len();
    let mut i: usize = 0;
    while i < n
        invariant
            n == markets@.len(),
            i <= n,
            debts@.len() == i,
            usr == (match user { Some(u) => u, None => User { collateral_assets: 0, borrowed_assets: 0 } }),
            forall|j: int| 0 <= j < i ==> spec_asset_debt(usr, #[trigger] markets@[j], timestamp as int) is Some,
            forall|j: int| 0 <= j < i ==> {
                let e = #[trigger] debts@[j];
                &&& e.denom == markets@[j].denom
                &&& spec_asset_debt(usr, markets@[j], timestamp as int) == Some((e.amount_scaled, e.amount as int))
            },
        decreases n - i,
    {
        let md = &markets[i];
        let is_borrowing_asset = match get_bit(usr.borrowed_assets, md.market.index) {
            Ok(b) => b,
            Err(e) => return Err(ContractError::Bit(e)),
        };
        let (amount_scaled, amount) = if is_borrowing_asset {
            let debt = match md.debt {
                Some(d) => d,
                None => {
                    assert(spec_asset_debt(usr, markets@[i as int], timestamp as int) is None);
                    assert(!(forall|j: int| 0 <= j < markets@.len() ==> spec_asset_debt(usr, #[trigger] markets@[j], timestamp as int) is Some));
                    return Err(ContractError::NotFound(Record::Debt));
                },
            };
            let amount = match get_underlying_debt_amount(debt.amount_scaled, &md.market, timestamp) {
                Ok(a) => a,
                Err(e) => {
                    assert(spec_asset_debt(usr, markets@[i as int], timestamp as int) is None);
                    assert(!(forall|j: int| 0 <= j < markets@.len() ==> spec_asset_debt(usr, #[trigger] markets@[j], timestamp as int) is Some));
                    return Err(e);
                },
            };
            (debt.amount_scaled, amount)
        } else {
            (0u128, 0u128)
        };
        debts.push(UserAssetDebtResponse { denom: md.denom.clone(), amount_scaled, amount });
        i = i + 1;
    }
    Ok(debts)
}

/// A user's debt in one asset: scaled and underlying, zero when there is no debt record.
pub fn query_user_asset_debt(market: Option<Market>, debt: Option<Debt>, denom: &String, timestamp: u64) -> (r: Result<UserAssetDebtResponse, ContractError>)
    ensures
        market is None ==> r == Err::<UserAssetDebtResponse, ContractError>(ContractError::NotFound(Record::Market)),
        market matches Some(m) ==> {
            &&& (r is Ok <==> (debt matches Some(d) ==> spec_underlying_debt_amount(d.amount_scaled as int, m, timestamp as int) is Some))
            &&& (r matches Ok(e) ==> {
                &&& e.denom == *denom
                &&& (debt is None ==> e.amount_scaled == 0 && e.amount == 0)
                &&& (debt matches Some(d) ==> e.amount_scaled == d.amount_scaled
                    && spec_underlying_debt_amount(d.amount_scaled as int, m, timestamp as int) == Some(e.amount as int))
            })
        },
{
    let market = match market {
        Some(m) => m,
        None => return Err(ContractError::NotFound(Record::Market)),
    };
    let (amount_scaled, amount) = match debt {
        Some(d) => {
            let amount = get_underlying_debt_amount(d.amount_scaled, &market, timestamp)?;
            (d.amount_scaled, amount)
        },
        None => (0u128, 0u128),
    };
    Ok(UserAssetDebtResponse { denom: denom.clone(), amount_scaled, amount })
}

/// The user's collateral flag in each of the given markets (in market order).
pub fn query_user_collateral(stored_user: Option<User>, markets: &Vec<Market>) -> (r: Result<Vec<UserAssetCollateralResponse>, ContractError>)
    ensures
        ({
            let u = match stored_user { Some(u) => u, None => User { collateral_assets: 0, borrowed_assets: 0 } };
            &&& (r is Ok <==> forall|i: int| 0 <= i < markets@.len() ==> (#[trigger] markets@[i]).index < 128)
            &&& (r matches Ok(v) ==> {
                &&& v@.len() == markets@.len()
                &&& forall|i: int| 0 <= i < markets@.len() ==> {
                    let e = #[trigger] v@[i];
                    &&& e.denom == markets@[i].denom
                    &&& e.enabled == bit_is_set(u.collateral_assets, markets@[i].index)
                }
            })
        }),
{
    let user = match stored_user {
        Some(u) => u,
        None => User::new(),
    };
    let mut out: Vec<UserAssetCollateralResponse> = Vec::new();
    let n = markets.len();
    let mut i: usize = 0;
    while i < n
        invariant
            n == markets@.len(),
            i <= n,
            out@.len() == i,
            user == (match stored_user { Some(u) => u, None => User { collateral_assets: 0, borrowed_assets: 0 } }),
            forall|j: int| 0 <= j < i ==> (#[trigger] markets@[j]).index < 128,
            forall|j: int| 0 <= j < i ==> {
                let e = #[trigger] out@[j];
                &&& e.denom == markets@[j].denom
                &&& e.enabled == bit_is_set(user.collateral_assets, markets@[j].index)
            },
        decreases n - i,
    {
        let enabled = match get_bit(user.collateral_assets, markets[i].index) {
            Ok(b) => b,
            Err(e) => return Err(ContractError::Bit(e)),
        };
        out.push(UserAssetCollateralResponse { denom: markets[i].denom.clone(), enabled });
        i = i + 1;
    }
    Ok(out)
}

/// A user's uncollateralized loan limit in an asset; refused when none was approved.
pub fn query_uncollateralized_loan_limit(limit: Option<u128>) -> (r: Result<u128, ContractError>)
    ensures
        limit matches Some(l) ==> r == Ok::<u128, ContractError>(l),
        limit is None ==> r == Err::<u128, ContractError>(ContractError::NotFound(Record::UncollateralizedLoanLimit)),
{
    match limit {
        Some(l) => Ok(l),
        None => Err(ContractError::NotFound(Record::UncollateralizedLoanLimit)),
    }
}

/// Whether the user borrows, with the two health factors when so.
#[derive(Clone, Copy, Debug, PartialEq, Eq, Structural)]
pub enum UserHealthStatus {
    NotBorrowing,
    Borrowing { max_ltv_hf: Decimal, liq_threshold_hf: Decimal },
}

/// The values of a user's account.
#[derive(Clone, Copy, Debug, PartialEq, Eq, Structural)]
pub struct UserPositionResponse {
    pub total_collateral_value: Decimal,
    pub total_debt_value: Decimal,
    pub total_collateralized_debt: Decimal,
    pub weighted_max_ltv_collateral: Decimal,
    pub weighted_liquidation_threshold_collateral: Decimal,
    pub health_status: UserHealthStatus,
}

/// The response the position query builds from an account's health.
pub open spec fn spec_position_response(h: Health) -> UserPositionResponse {
    UserPositionResponse {
        total_collateral_value: h.total_collateral_value,
        total_debt_value: h.total_debt_value,
        total_collateralized_debt: h.total_debt_value,
        weighted_max_ltv_collateral: h.max_ltv_adjusted_collateral,
        weighted_liquidation_threshold_collateral: h.lqdt_threshold_adjusted_collateral,
        health_status: match (h.max_ltv_health_factor, h.liquidation_health_factor) {
            (Some(m), Some(l)) => UserHealthStatus::Borrowing { max_ltv_hf: m, liq_threshold_hf: l },
            _ => UserHealthStatus::NotBorrowing,
        },
    }
}

/// A user's account values and health, from the user's markets (see `get_user_positions`).
/// The total debt adds the uncollateralized debt reported by `get_uncollaterized_debt` (zero)
/// to the collateralized debt.
pub fn query_user_position(user: Option<User>, snapshots: &Vec<Option<MarketSnapshot>>, timestamp: u64) -> (r: Result<UserPositionResponse, ContractError>)
    ensures
        ({
            let u = match user { Some(u) => u, None => User { collateral_assets: 0, borrowed_assets: 0 } };
            &&& (r is Ok <==> (spec_user_positions(u, snapshots@, timestamp as int) matches Some(ps) && spec_position_health(ps) is Some))
            &&& (r matches Ok(resp) ==> resp == spec_position_response(
                spec_position_health(spec_user_positions(u, snapshots@, timestamp as int).unwrap()).unwrap()))
        }),
        // the health factors are the weighted collaterals over the collateralized debt
        r matches Ok(resp) ==> ((resp.health_status is Borrowing <==> resp.total_collateralized_debt.val() > 0)
            && (resp.health_status is Borrowing ==> resp.health_status->max_ltv_hf.val()
                == resp.weighted_max_ltv_collateral.val() * (DECIMAL_FRACTIONAL as int) / resp.total_collateralized_debt.val())
            && (resp.health_status is Borrowing ==> resp.health_status->liq_threshold_hf.val()
                == resp.weighted_liquidation_threshold_collateral.val() * (DECIMAL_FRACTIONAL as int) / resp.total_collateralized_debt.val())),
{
    let user = match user {
        Some(u) => u,
        None => User::new(),
    };
    let positions = get_user_positions(&user, snapshots, timestamp)?;
    let health = match compute_position_health(&positions) {
        Ok(h) => h,
        Err(e) => return Err(ContractError::Math(e)),
    };
    proof {
        lemma_position_health_factors(positions@);
    }
    let health_status = match (health.max_ltv_health_factor, health.liquidation_health_factor) {
        (Some(max_ltv_hf), Some(liq_threshold_hf)) => UserHealthStatus::Borrowing { max_ltv_hf, liq_threshold_hf },
        _ => UserHealthStatus::NotBorrowing,
    };
    let total_uncollateralized_debt = match get_uncollaterized_debt(&positions) {
        Ok(v) => v,
        Err(e) => return Err(ContractError::Math(e)),
    };
    let uncollateralized = match Decimal::from_ratio(total_uncollateralized_debt, 1) {
        Ok(d) => d,
        Err(e) => return Err(ContractError::Math(e)),
    };
    let total_debt_value = match health.total_debt_value.checked_add(uncollateralized) {
        Ok(d) => d,
        Err(e) => return Err(ContractError::Math(e)),
    };
    Ok(UserPositionResponse {
        total_collateral_value: health.total_collateral_value,
        total_debt_value,
        total_collateralized_debt: health.total_debt_value,
        weighted_max_ltv_collateral: health.max_ltv_adjusted_collateral,
        weighted_liquidation_threshold_collateral: health.lqdt_threshold_adjusted_collateral,
        health_status,
    })
}

/// A position query reports the account's two health factors as its max-LTV-weighted and its
/// liquidation-threshold-weighted collateral, each divided by its collateralized debt (decimal
/// atomics, rounded down); the account is reported as borrowing exactly when it has
/// collateralized debt.
pub proof fn lemma_position_health_factors(ps: Seq<Position>)
    requires
        spec_position_health(ps) is Some,
    ensures
        ({
            let r = spec_position_response(spec_position_health(ps).unwrap());
            let debt = r.total_collateralized_debt.val();
            &&& (r.health_status is Borrowing <==> debt > 0)
            &&& (r.health_status is Borrowing ==> r.health_status->max_ltv_hf.val()
                    == r.weighted_max_ltv_collateral.val() * (DECIMAL_FRACTIONAL as int) / debt)
            &&& (r.health_status is Borrowing ==> r.health_status->liq_threshold_hf.val()
                    == r.weighted_liquidation_threshold_collateral.val() * (DECIMAL_FRACTIONAL as int) / debt)
        }),
{
}

} // verus!
