//! A user's positions across the red bank's markets, and the health checks built on them.
use vstd::prelude::*;
use crate::bits::{bit_is_set, get_bit};
use crate::decimal::{Decimal, MathError, DECIMAL_FRACTIONAL, spec_ratio};
use crate::error::{ContractError, Record};
use crate::health::{Health, HealthPosition, spec_health};
use crate::interest_rates::{
    get_underlying_debt_amount, get_underlying_liquidity_amount, spec_underlying_debt_amount,
    spec_underlying_liquidity_amount,
};
use crate::market::Market;
use crate::state::{Debt, User};

verus! {

/// A user's position in one asset, in underlying amounts, with the parameters that weigh it.
#[derive(Clone, Debug)]
pub struct Position {
    pub denom: String,
    pub collateral_amount: u128,
    pub debt_amount: u128,
    pub uncollateralized_debt: bool,
    pub max_ltv: Decimal,
    pub liquidation_threshold: Decimal,
    pub asset_price: Decimal,
}

impl Position {
    /// A copy of the position.
    pub fn copy(&self) -> (r: Position)
        ensures
            r == *self,
    {
        Position {
            denom: self.denom.clone(),
            collateral_amount: self.collateral_amount,
            debt_amount: self.debt_amount,
            uncollateralized_debt: self.uncollateralized_debt,
            max_ltv: self.max_ltv,
            liquidation_threshold: self.liquidation_threshold,
            asset_price: self.asset_price,
        }
    }
}

/// What the contract reads for one market when gathering a user's positions: the market, the
/// user's scaled deposit balance (its maToken balance), the user's debt record and the
/// oracle price of the asset.
#[derive(Clone, Debug)]
pub struct MarketSnapshot {
    pub denom: String,
    pub market: Market,
    pub collateral_balance_scaled: u128,
    pub debt: Option<Debt>,
    pub price: Decimal,
}

/// The position in market `i`, if the user uses it as collateral or borrows it:
/// `Some(None)` when the user has neither flag set, `None` when the computation fails.
pub open spec fn spec_position_at(user: User, i: int, snapshot: Option<MarketSnapshot>, timestamp: int) -> Option<Option<Position>> {
    if i >= 128 {
        None
    } else if !bit_is_set(user.collateral_assets, i as u32) && !bit_is_set(user.borrowed_assets, i as u32) {
        Some(None)
    } else {
        match snapshot {
            None => None,
            Some(s) => {
                let collateral = if bit_is_set(user.collateral_assets, i as u32) {
                    spec_underlying_liquidity_amount(s.collateral_balance_scaled as int, s.market, timestamp)
                } else {
                    Some(0)
                };
                let debt = if bit_is_set(user.borrowed_assets, i as u32) {
                    match s.debt {
                        Some(d) => spec_underlying_debt_amount(d.amount_scaled as int, s.market, timestamp),
                        None => None,
                    }
                } else {
                    Some(0)
                };
                match (collateral, debt) {
                    (Some(c), Some(d)) => Some(Some(Position {
                        denom: s.denom,
                        collateral_amount: c as u128,
                        debt_amount: d as u128,
                        uncollateralized_debt: if bit_is_set(user.borrowed_assets, i as u32) {
                            s.debt.unwrap().uncollateralized
                        } else {
                            false
                        },
                        max_ltv: if bit_is_set(user.collateral_assets, i as u32) {
                            s.market.max_loan_to_value
                        } else {
                            Decimal { atomics: 0 }
                        },
                        liquidation_threshold: if bit_is_set(user.collateral_assets, i as u32) {
                            s.market.liquidation_threshold
                        } else {
                            Decimal { atomics: 0 }
                        },
                        asset_price: s.price,
                    })),
                    _ => None,
                }
            },
        }
    }
}

/// The positions of `user` over the markets `0..snapshots.len()`, in market order.
pub open spec fn spec_user_positions(user: User, snapshots: Seq<Option<MarketSnapshot>>, timestamp: int) -> Option<Seq<Position>>
    decreases snapshots.len(),
{
    if snapshots.len() == 0 {
        Some(Seq::empty())
    } else {
        let n = snapshots.len() - 1;
        match spec_user_positions(user, snapshots.drop_last(), timestamp) {
            Some(prefix) => match spec_position_at(user, n, snapshots.last(), timestamp) {
                Some(Some(p)) => Some(prefix.push(p)),
                Some(None) => Some(prefix),
                None => None,
            },
            None => None,
        }
    }
}

proof fn lemma_user_positions_none_propagates(user: User, snaps: Seq<Option<MarketSnapshot>>, k: int, t: int)
    requires
        0 <= k <= snaps.len(),
    ensures
        spec_user_positions(user, snaps.take(k), t) is None ==> spec_user_positions(user, snaps, t) is None,
    decreases snaps.len() - k,
{
    if k < snaps.len() {
        assert(snaps.take(k + 1).drop_last() =~= snaps.take(k));
        lemma_user_positions_none_propagates(user, snaps, k + 1, t);
    } else {
        assert(snaps.take(k) =~= snaps);
    }
}

/// Goes through the markets (`snapshots[i]` is what was read for market `i`, `None` where
/// nothing was read) and returns the user's positions in the markets it uses as collateral
/// or borrows from, with underlying amounts at `timestamp`.
pub fn get_user_positions(user: &User, snapshots: &Vec<Option<MarketSnapshot>>, timestamp: u64) -> (r: Result<Vec<Position>, ContractError>)
    ensures
        r is Ok <==> spec_user_positions(*user, snapshots@, timestamp as int) is Some,
        r matches Ok(ps) ==> spec_user_positions(*user, snapshots@, timestamp as int) == Some(ps@),
{
    let mut ret: Vec<Position> = Vec::new();
    let n = snapshots.len();
    let mut i: usize = 0;
    while i < n
        invariant
            n == snapshots@.len(),
            i <= n,
            spec_user_positions(*user, snapshots@.take(i as int), timestamp as int) == Some(ret@),
        decreases n - i,
    {
        proof {
            assert(snapshots@.take(i as int + 1).drop_last() =~= snapshots@.take(i as int));
            assert(snapshots@.take(i as int + 1).last() == snapshots@[i as int]);
            lemma_user_positions_none_propagates(*user, snapshots@, i as int + 1, timestamp as int);
        }
        if i >= 128 {
            return Err(ContractError::Bit(crate::bits::BitError::IndexOutOfRange));
        }
        let idx = i as u32;
        let user_is_using_as_collateral = match get_bit(user.collateral_assets, idx) {
            Ok(b) => b,
            Err(e) => return Err(ContractError::Bit(e)),
        };
        let user_is_borrowing = match get_bit(user.borrowed_assets, idx) {
            Ok(b) => b,
            Err(e) => return Err(ContractError::Bit(e)),
        };
        if user_is_using_as_collateral || user_is_borrowing {
            let snapshot = match &snapshots[i] {
                Some(s) => s,
                None => return Err(ContractError::NotFound(Record::Market)),
            };
            let (collateral_amount, max_ltv, liquidation_threshold) = if user_is_using_as_collateral {
                let c = get_underlying_liquidity_amount(snapshot.collateral_balance_scaled, &snapshot.market, timestamp)?;
                (c, snapshot.market.max_loan_to_value, snapshot.market.liquidation_threshold)
            } else {
                (0u128, Decimal::zero(), Decimal::zero())
            };
            let (debt_amount, uncollateralized_debt) = if user_is_borrowing {
                let user_debt = match snapshot.debt {
                    Some(d) => d,
                    None => return Err(ContractError::NotFound(Record::Debt)),
                };
                let d = get_underlying_debt_amount(user_debt.amount_scaled, &snapshot.market, timestamp)?;
                (d, user_debt.uncollateralized)
            } else {
                (0u128, false)
            };
            let position = Position {
                denom: snapshot.denom.clone(),
                collateral_amount,
                debt_amount,
                uncollateralized_debt,
                max_ltv,
                liquidation_threshold,
                asset_price: snapshot.price,
            };
            ret.push(position);
        }
        i = i + 1;
    }
    assert(snapshots@.take(n as int) =~= snapshots@);
    Ok(ret)
}

/// The health-computation view of a position: amounts as decimals, uncollateralized debt
/// left out.
pub open spec fn spec_health_position(p: Position) -> Option<HealthPosition> {
    if spec_ratio(p.collateral_amount as int, 1) > u128::MAX {
        None
    } else if !p.uncollateralized_debt && spec_ratio(p.debt_amount as int, 1) > u128::MAX {
        None
    } else {
        Some(HealthPosition {
            denom: p.denom,
            collateral_amount: Decimal { atomics: spec_ratio(p.collateral_amount as int, 1) as u128 },
            debt_amount: if p.uncollateralized_debt {
                Decimal { atomics: 0 }
            } else {
                Decimal { atomics: spec_ratio(p.debt_amount as int, 1) as u128 }
            },
            price: p.asset_price,
            max_ltv: p.max_ltv,
            liquidation_threshold: p.liquidation_threshold,
        })
    }
}

pub open spec fn spec_health_positions(ps: Seq<Position>) -> Option<Seq<HealthPosition>>
    decreases ps.len(),
{
    if ps.len() == 0 {
        Some(Seq::empty())
    } else {
        match (spec_health_positions(ps.drop_last()), spec_health_position(ps.last())) {
            (Some(prefix), Some(h)) => Some(prefix.push(h)),
            _ => None,
        }
    }
}

/// The health of an account with the given positions.
pub open spec fn spec_position_health(ps: Seq<Position>) -> Option<Health> {
    match spec_health_positions(ps) {
        Some(hs) => spec_health(hs),
        None => None,
    }
}

proof fn lemma_health_positions_none_propagates(ps: Seq<Position>, k: int)
    requires
        0 <= k <= ps.len(),
    ensures
        spec_health_positions(ps.take(k)) is None ==> spec_health_positions(ps) is None,
    decreases ps.len() - k,
{
    if k < ps.len() {
        assert(ps.take(k + 1).drop_last() =~= ps.take(k));
        lemma_health_positions_none_propagates(ps, k + 1);
    } else {
        assert(ps.take(k) =~= ps);
    }
}

/// The health of a user's account given its positions; debt under an uncollateralized loan
/// limit does not count.
pub fn compute_position_health(positions: &Vec<Position>) -> (r: Result<Health, MathError>)
    ensures
        r is Ok <==> spec_position_health(positions@) is Some,
        r matches Ok(h) ==> spec_position_health(positions@) == Some(h),
{
    let mut hs: Vec<HealthPosition> = Vec::new();
    let n = positions.len();
    let mut i: usize = 0;
    while i < n
        invariant
            n == positions@.len(),
            i <= n,
            spec_health_positions(positions@.take(i as int)) == Some(hs@),
        decreases n - i,
    {
        proof {
            assert(positions@.take(i as int + 1).drop_last() =~= positions@.take(i as int));
            assert(positions@.take(i as int + 1).last() == positions@[i as int]);
            lemma_health_positions_none_propagates(positions@, i as int + 1);
        }
        let p = &positions[i];
        let debt_amount = if p.uncollateralized_debt {
            Decimal::zero()
        } else {
            Decimal::from_ratio(p.debt_amount, 1)?
        };
        let collateral_amount = Decimal::from_ratio(p.collateral_amount, 1)?;
        hs.push(HealthPosition {
            denom: p.denom.clone(),
            collateral_amount,
            debt_amount,
            price: p.asset_price,
            max_ltv: p.max_ltv,
            liquidation_threshold: p.liquidation_threshold,
        });
        i = i + 1;
    }
    assert(positions@.take(n as int) =~= positions@);
    Health::compute_health(&hs)
}

/// Whether the account with the given positions may be liquidated.
pub fn assert_liquidatable(positions: &Vec<Position>) -> (r: Result<bool, ContractError>)
    ensures
        r is Ok <==> spec_position_health(positions@) is Some,
        r matches Ok(b) ==> b == spec_position_health(positions@).unwrap().spec_is_liquidatable(),
{
    match compute_position_health(positions) {
        Ok(h) => Ok(h.is_liquidatable()),
        Err(e) => Err(ContractError::Math(e)),
    }
}

/// `k` is the first position with the given denom.
pub open spec fn is_first_with_denom(ps: Seq<Position>, denom: Seq<char>, k: int) -> bool {
    &&& 0 <= k < ps.len()
    &&& ps[k].denom@ == denom
    &&& forall|j: int| 0 <= j < k ==> ps[j].denom@ != denom
}

/// Finds the first position with the given denom.
pub fn find_position(positions: &Vec<Position>, denom: &String) -> (r: Option<usize>)
    ensures
        r matches Some(k) ==> is_first_with_denom(positions@, denom@, k as int),
        r is None ==> forall|j: int| 0 <= j < positions@.len() ==> positions@[j].denom@ != denom@,
{
    let n = positions.len();
    let mut i: usize = 0;
    while i < n
        invariant
            n == positions@.len(),
            i <= n,
            forall|j: int| 0 <= j < i ==> positions@[j].denom@ != denom@,
        decreases n - i,
    {
        if positions[i].denom == *denom {
            return Some(i);
        }
        i = i + 1;
    }
    None
}

/// The positions after withdrawing `amount` of collateral in the asset at index `k`.
pub open spec fn spec_withdrawn(ps: Seq<Position>, k: int, amount: u128) -> Seq<Position> {
    ps.update(k, Position { collateral_amount: (ps[k].collateral_amount - amount) as u128, ..ps[k] })
}

/// Whether the account stays healthy (not liquidatable) after withdrawing `amount` of the
/// collateral in `denom`.
pub fn assert_health_after_withdraw(positions: Vec<Position>, denom: &String, amount: u128) -> (r: Result<bool, ContractError>)
    ensures
        (forall|j: int| 0 <= j < positions@.len() ==> positions@[j].denom@ != denom@) ==> r == Err::<bool, ContractError>(ContractError::NoUserBalance),
        forall|k: int| is_first_with_denom(positions@, denom@, k) ==> {
            &&& (r is Ok <==> positions@[k].collateral_amount >= amount && spec_position_health(spec_withdrawn(positions@, k, amount)) is Some)
            &&& (r matches Ok(b) ==> b == !spec_position_health(spec_withdrawn(positions@, k, amount)).unwrap().spec_is_liquidatable())
        },
{
    let mut positions = positions;
    let k = match find_position(&positions, denom) {
        Some(k) => k,
        None => return Err(ContractError::NoUserBalance),
    };
    let ghost before = positions@;
    if positions[k].collateral_amount < amount {
        return Err(ContractError::Math(MathError::Overflow));
    }
    let mut p = positions[k].copy();
    p.collateral_amount = p.collateral_amount - amount;
    positions.set(k, p);
    proof {
        assert forall|k2: int| is_first_with_denom(before, denom@, k2) implies k2 == k as int by {
            if k2 < k as int {
            } else if k2 > k as int {
                assert(before[k as int].denom@ == denom@);
            }
        }
        assert(positions@ =~= spec_withdrawn(before, k as int, amount));
    }
    let liquidatable = assert_liquidatable(&positions)?;
    Ok(!liquidatable)
}

/// The positions after borrowing `amount` of `denom`: the debt of the first position in that
/// asset grows, or a new position holding only that debt is added.
pub open spec fn spec_borrowed(ps: Seq<Position>, denom: String, amount: u128, price: Decimal) -> Option<Seq<Position>> {
    if exists|k: int| is_first_with_denom(ps, denom@, k) {
        let k = choose|k: int| is_first_with_denom(ps, denom@, k);
        if ps[k].debt_amount + amount > u128::MAX {
            None
        } else {
            Some(ps.update(k, Position { debt_amount: (ps[k].debt_amount + amount) as u128, ..ps[k] }))
        }
    } else {
        Some(ps.push(Position {
            denom: denom,
            collateral_amount: 0,
            debt_amount: amount,
            uncollateralized_debt: false,
            max_ltv: Decimal { atomics: 0 },
            liquidation_threshold: Decimal { atomics: 0 },
            asset_price: price,
        }))
    }
}

/// Whether the account stays within its borrowing capacity (not above its max LTV) after
/// borrowing `amount` of `denom`, whose price is `asset_price`.
pub fn assert_health_after_borrow(positions: Vec<Position>, denom: &String, asset_price: Decimal, amount: u128) -> (r: Result<bool, ContractError>)
    ensures
        r is Ok <==> (spec_borrowed(positions@, *denom, amount, asset_price) matches Some(ps) && spec_position_health(ps) is Some),
        r matches Ok(b) ==> b == !spec_position_health(spec_borrowed(positions@, *denom, amount, asset_price).unwrap()).unwrap().spec_is_above_max_ltv(),
{
    let mut positions = positions;
    let ghost before = positions@;
    match find_position(&positions, denom) {
        Some(k) => {
            proof {
                assert forall|k2: int| is_first_with_denom(before, denom@, k2) implies k2 == k as int by {
                    if k2 < k as int {
                    } else if k2 > k as int {
                        assert(before[k as int].denom@ == denom@);
                    }
                }
                assert(is_first_with_denom(before, denom@, k as int));
            }
            let mut p = positions[k].copy();
            p.debt_amount = match p.debt_amount.checked_add(amount) {
                Some(v) => v,
                None => return Err(ContractError::Math(MathError::Overflow)),
            };
            positions.set(k, p);
            assert(positions@ =~= spec_borrowed(before, *denom, amount, asset_price).unwrap());
        },
        None => {
            positions.push(Position {
                denom: denom.clone(),
                collateral_amount: 0,
                debt_amount: amount,
                uncollateralized_debt: false,
                max_ltv: Decimal::zero(),
                liquidation_threshold: Decimal::zero(),
                asset_price,
            });
            assert(positions@ =~= spec_borrowed(before, *denom, amount, asset_price).unwrap());
        },
    }
    let health = match compute_position_health(&positions) {
        Ok(h) => h,
        Err(e) => return Err(ContractError::Math(e)),
    };
    Ok(!health.is_above_max_ltv())
}

/// The total uncollateralized debt reported for the positions. Each uncollateralized debt is
/// added to the running total only to check the sum for overflow; the total itself is never
/// updated, so the result is always zero.
pub fn get_uncollaterized_debt(positions: &Vec<Position>) -> (r: Result<u128, MathError>)
    ensures
        r == Ok::<u128, MathError>(0),
{
    let total: u128 = 0;
    let n = positions.len();
    let mut i: usize = 0;
    while i < n
        invariant
            n == positions@.len(),
            i <= n,
            total == 0,
        decreases n - i,
    {
        if positions[i].uncollateralized_debt {
            let _ = total.checked_add(positions[i].debt_amount);
        }
        i = i + 1;
    }
    Ok(total)
}

} // verus!
