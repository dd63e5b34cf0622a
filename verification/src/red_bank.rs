//! The red bank's message handlers, as decisions over the records they read.
//!
//! Each handler takes what the contract loads from storage and learns from queries (the
//! market, the user's record, balances, prices, addresses), and returns the records to
//! store and the messages and events of the response.
use vstd::prelude::*;
use crate::bits::{bit_is_set, get_bit, set_bit, unset_bit};
use crate::decimal::{Decimal, MathError, DECIMAL_FRACTIONAL, spec_mul_floor};
use crate::liquidation::{liquidation_compute_amounts, spec_liquidation_amounts};
use crate::market::Config;
use crate::error::{ContractError, Record};
use crate::interest_rates::{
    apply_accumulated_interests, get_scaled_debt_amount, get_scaled_liquidity_amount,
    get_underlying_debt_amount, spec_scaled_debt_amount, spec_underlying_debt_amount, get_underlying_liquidity_amount,
    spec_apply_accumulated_interests, spec_scaled_liquidity_amount, spec_underlying_liquidity_amount,
    spec_update_interest_rates, update_interest_rates,
};
use crate::market::{Market, spec_borrow_rate, spec_liquidity_rate};
use crate::positions::{
    MarketSnapshot, Position, assert_health_after_borrow, assert_liquidatable, find_position, assert_health_after_withdraw, spec_borrowed, get_user_positions, is_first_with_denom,
    spec_position_health, spec_user_positions, spec_withdrawn,
};
use crate::state::{Debt, User};

verus! {

/// A message the red bank sends.
#[derive(Clone, Debug)]
pub enum RedBankMsg {
    /// Mint maTokens (deposit units) of the market's token to `recipient`
    MintMaToken { contract_addr: String, recipient: String, amount: u128 },
    /// Burn `user`'s maTokens
    BurnMaToken { contract_addr: String, user: String, amount: u128 },
    /// Move maTokens from a liquidated user to the liquidator
    TransferMaTokenOnLiquidation { contract_addr: String, sender: String, recipient: String, amount: u128 },
    /// Send `amount` of the native asset `denom` to `recipient`
    SendAsset { recipient: String, denom: String, amount: u128 },
}

/// An event the red bank emits.
#[derive(Clone, Debug)]
pub enum RedBankEvent {
    CollateralPositionChanged { denom: String, enabled: bool, user: String },
    DebtPositionChanged { denom: String, enabled: bool, user: String },
    InterestsUpdated { denom: String, borrow_index: Decimal, liquidity_index: Decimal, borrow_rate: Decimal, liquidity_rate: Decimal },
}

/// The event reporting a market's indices and rates.
pub open spec fn interests_updated_event(denom: String, m: Market) -> RedBankEvent {
    RedBankEvent::InterestsUpdated {
        denom: denom,
        borrow_index: m.borrow_index,
        liquidity_index: m.liquidity_index,
        borrow_rate: m.borrow_rate,
        liquidity_rate: m.liquidity_rate,
    }
}

pub fn build_interests_updated_event(denom: &String, market: &Market) -> (r: RedBankEvent)
    ensures
        r == interests_updated_event(*denom, *market),
{
    RedBankEvent::InterestsUpdated {
        denom: denom.clone(),
        borrow_index: market.borrow_index,
        liquidity_index: market.liquidity_index,
        borrow_rate: market.borrow_rate,
        liquidity_rate: market.liquidity_rate,
    }
}

pub fn build_collateral_position_changed_event(denom: &String, enabled: bool, user: &String) -> (r: RedBankEvent)
    ensures
        r == (RedBankEvent::CollateralPositionChanged { denom: *denom, enabled, user: *user }),
{
    RedBankEvent::CollateralPositionChanged { denom: denom.clone(), enabled, user: user.clone() }
}

pub fn build_debt_position_changed_event(denom: &String, enabled: bool, user: &String) -> (r: RedBankEvent)
    ensures
        r == (RedBankEvent::DebtPositionChanged { denom: *denom, enabled, user: *user }),
{
    RedBankEvent::DebtPositionChanged { denom: denom.clone(), enabled, user: user.clone() }
}

/// The reward mint that accrued interest causes, if any.
pub open spec fn reward_msgs(m: Market, collector: String, mint: Option<u128>) -> Seq<RedBankMsg> {
    match mint {
        Some(amount) => seq![RedBankMsg::MintMaToken { contract_addr: m.ma_token_address, recipient: collector, amount: amount }],
        None => Seq::empty(),
    }
}

/// Brings the market's indices up to date and appends the reward mint, if any.
pub(crate) fn accrue_interests(timestamp: u64, collector: &String, market: &mut Market, msgs: &mut Vec<RedBankMsg>) -> (r: Result<(), ContractError>)
    ensures
        r is Ok <==> spec_apply_accumulated_interests(*old(market), timestamp) is Some,
        r is Ok ==> {
            let (m, mint) = spec_apply_accumulated_interests(*old(market), timestamp).unwrap();
            &&& *final(market) == m
            &&& final(msgs)@ == old(msgs)@ + reward_msgs(m, *collector, mint)
        },
{
    let mint = apply_accumulated_interests(timestamp, market)?;
    match mint {
        Some(amount) => {
            msgs.push(RedBankMsg::MintMaToken {
                contract_addr: market.ma_token_address.clone(),
                recipient: collector.clone(),
                amount,
            });
        },
        None => {},
    }
    Ok(())
}

/// Recomputes the market's rates and appends the `interests_updated` event.
pub(crate) fn refresh_interest_rates(
    contract_balance: u128,
    liquidity_taken: u128,
    timestamp: u64,
    denom: &String,
    market: &mut Market,
    events: &mut Vec<RedBankEvent>,
) -> (r: Result<(), ContractError>)
    ensures
        contract_balance < liquidity_taken ==> r == Err::<(), ContractError>(ContractError::OperationExceedsAvailableLiquidity),
        r is Ok <==> spec_update_interest_rates(*old(market), contract_balance, liquidity_taken, timestamp) is Some,
        r is Err ==> *final(market) == *old(market) && final(events)@ == old(events)@,
        r is Ok ==> {
            &&& spec_update_interest_rates(*old(market), contract_balance, liquidity_taken, timestamp) == Some(*final(market))
            &&& final(events)@ == old(events)@.push(interests_updated_event(*denom, *final(market)))
        },
{
    update_interest_rates(contract_balance, liquidity_taken, timestamp, market)?;
    events.push(build_interests_updated_event(denom, market));
    Ok(())
}

/// What a deposit changes.
#[derive(Debug)]
pub struct DepositOutcome {
    /// The market to store
    pub market: Market,
    /// The user's record to store, when it changed
    pub user: Option<User>,
    /// The amount of maTokens minted to the user
    pub mint_amount: u128,
    pub messages: Vec<RedBankMsg>,
    pub events: Vec<RedBankEvent>,
}

/// The market after a deposit brought it up to date, given the contract's balance.
pub open spec fn spec_refreshed_market(m: Market, timestamp: u64, balance: u128, liquidity_taken: u128) -> Option<(Market, Market, Option<u128>)> {
    match spec_apply_accumulated_interests(m, timestamp) {
        Some((m1, mint)) => match spec_update_interest_rates(m1, balance, liquidity_taken, timestamp) {
            Some(m2) => Some((m1, m2, mint)),
            None => None,
        },
        None => None,
    }
}

/// Execute deposits and mint corresponding ma_tokens.
///
/// `user_addr` is the address credited (the sender, or the validated `on_behalf_of`);
/// `market` and `user` are the stored records; `total_scaled_deposits` is the maToken's total
/// supply; `contract_balance` is the contract's balance of the asset, the deposit included;
/// `rewards_collector` is the protocol rewards collector's address.
pub fn deposit(
    market: Option<Market>,
    user: Option<User>,
    user_addr: &String,
    denom: &String,
    deposit_amount: u128,
    total_scaled_deposits: u128,
    contract_balance: u128,
    rewards_collector: &String,
    timestamp: u64,
) -> (r: Result<DepositOutcome, ContractError>)
    ensures
        market is None ==> r == Err::<DepositOutcome, ContractError>(ContractError::NotFound(Record::Market)),
        market matches Some(m) ==> {
            let u = match user { Some(u) => u, None => User { collateral_assets: 0, borrowed_assets: 0 } };
            let total_deposits = spec_underlying_liquidity_amount(total_scaled_deposits as int, m, timestamp as int);
            let refreshed = spec_refreshed_market(m, timestamp, contract_balance, 0);
            &&& !m.deposit_enabled ==> r == Err::<DepositOutcome, ContractError>(ContractError::DepositNotEnabled { denom: *denom })
            &&& (m.deposit_enabled && total_deposits is Some && total_deposits.unwrap() + deposit_amount <= u128::MAX
                && total_deposits.unwrap() + deposit_amount > m.deposit_cap
                ==> r == Err::<DepositOutcome, ContractError>(ContractError::DepositCapExceeded { denom: *denom }))
            &&& (m.deposit_enabled && total_deposits is Some && total_deposits.unwrap() + deposit_amount <= m.deposit_cap
                && deposit_amount == 0 ==> r == Err::<DepositOutcome, ContractError>(ContractError::InvalidDepositAmount { denom: *denom }))
            &&& (r is Ok <==> {
                &&& m.deposit_enabled
                &&& total_deposits matches Some(t) && t + deposit_amount <= u128::MAX && t + deposit_amount <= m.deposit_cap
                &&& deposit_amount > 0
                &&& m.index < 128
                &&& refreshed matches Some((_, m2, _))
                &&& m2.liquidity_index.val() != 0
                &&& spec_scaled_liquidity_amount(deposit_amount as int, m2, timestamp as int) is Some
            })
            &&& (r matches Ok(o) ==> {
                let (m1, m2, mint) = refreshed.unwrap();
                let newly_collateral = !bit_is_set(u.collateral_assets, m.index);
                &&& o.market == m2
                &&& Some(o.mint_amount as int) == spec_scaled_liquidity_amount(deposit_amount as int, m2, timestamp as int)
                &&& (newly_collateral ==> o.user == Some(User { collateral_assets: u.collateral_assets | (1u128 << m.index), ..u }))
                &&& (!newly_collateral ==> o.user is None)
                &&& o.messages@ == reward_msgs(m1, *rewards_collector, mint).push(
                    RedBankMsg::MintMaToken { contract_addr: m2.ma_token_address, recipient: *user_addr, amount: o.mint_amount })
                &&& o.events@ == (if newly_collateral {
                        seq![RedBankEvent::CollateralPositionChanged { denom: *denom, enabled: true, user: *user_addr }]
                    } else {
                        Seq::empty()
                    }).push(interests_updated_event(*denom, m2))
            })
        },
{
    let mut market = match market {
        Some(m) => m,
        None => return Err(ContractError::NotFound(Record::Market)),
    };
    if !market.deposit_enabled {
        return Err(ContractError::DepositNotEnabled { denom: denom.clone() });
    }
    let total_deposits = get_underlying_liquidity_amount(total_scaled_deposits, &market, timestamp)?;
    let total_after = match total_deposits.checked_add(deposit_amount) {
        Some(v) => v,
        None => return Err(ContractError::Math(MathError::Overflow)),
    };
    if total_after > market.deposit_cap {
        return Err(ContractError::DepositCapExceeded { denom: denom.clone() });
    }
    // Cannot deposit zero amount
    if deposit_amount == 0 {
        return Err(ContractError::InvalidDepositAmount { denom: denom.clone() });
    }

    let mut user = match user {
        Some(u) => u,
        None => User::new(),
    };
    let mut messages: Vec<RedBankMsg> = Vec::new();
    let mut events: Vec<RedBankEvent> = Vec::new();
    let has_deposited_asset = match get_bit(user.collateral_assets, market.index) {
        Ok(b) => b,
        Err(e) => return Err(ContractError::Bit(e)),
    };
    let mut user_to_save: Option<User> = None;
    if !has_deposited_asset {
        match set_bit(&mut user.collateral_assets, market.index) {
            Ok(()) => {},
            Err(e) => return Err(ContractError::Bit(e)),
        }
        user_to_save = Some(user);
        events.push(build_collateral_position_changed_event(denom, true, user_addr));
    }

    // update indexes and interest rates
    let ghost m0 = market;
    accrue_interests(timestamp, rewards_collector, &mut market, &mut messages)?;
    let ghost m1 = market;
    refresh_interest_rates(contract_balance, 0, timestamp, denom, &mut market, &mut events)?;

    if market.liquidity_index.is_zero() {
        return Err(ContractError::InvalidLiquidityIndex);
    }
    let mint_amount = get_scaled_liquidity_amount(deposit_amount, &market, timestamp)?;
    messages.push(RedBankMsg::MintMaToken {
        contract_addr: market.ma_token_address.clone(),
        recipient: user_addr.clone(),
        amount: mint_amount,
    });
    Ok(DepositOutcome { market, user: user_to_save, mint_amount, messages, events })
}


/// Whether the account stays healthy after withdrawing `amount` of `denom`: `None` when the
/// check fails to compute.
pub open spec fn spec_healthy_after_withdraw(ps: Seq<Position>, denom: String, amount: u128) -> Option<bool> {
    if exists|k: int| is_first_with_denom(ps, denom@, k) {
        let k = choose|k: int| is_first_with_denom(ps, denom@, k);
        if ps[k].collateral_amount >= amount {
            match spec_position_health(spec_withdrawn(ps, k, amount)) {
                Some(h) => Some(!h.spec_is_liquidatable()),
                None => None,
            }
        } else {
            None
        }
    } else {
        None
    }
}

proof fn lemma_first_with_denom_unique(ps: Seq<Position>, denom: Seq<char>, k1: int, k2: int)
    requires
        is_first_with_denom(ps, denom, k1),
        is_first_with_denom(ps, denom, k2),
    ensures
        k1 == k2,
{
    if k1 < k2 {
        assert(ps[k1].denom@ == denom);
    } else if k2 < k1 {
        assert(ps[k2].denom@ == denom);
    }
}

proof fn lemma_first_exists(ps: Seq<Position>, denom: Seq<char>, j: int)
    requires
        0 <= j < ps.len(),
        ps[j].denom@ == denom,
    ensures
        exists|k: int| is_first_with_denom(ps, denom, k),
    decreases j,
{
    if exists|i: int| 0 <= i < j && ps[i].denom@ == denom {
        let i = choose|i: int| 0 <= i < j && ps[i].denom@ == denom;
        lemma_first_exists(ps, denom, i);
    } else {
        assert(is_first_with_denom(ps, denom, j));
    }
}

/// The health check before a withdrawal: positions gathered from the snapshots, then the
/// health with the withdrawn collateral taken out.
pub open spec fn spec_withdraw_health(withdrawer: User, snapshots: Seq<Option<MarketSnapshot>>, timestamp: u64, denom: String, amount: u128) -> Option<bool> {
    match spec_user_positions(withdrawer, snapshots, timestamp as int) {
        Some(ps) => spec_healthy_after_withdraw(ps, denom, amount),
        None => None,
    }
}

fn check_health_after_withdraw(withdrawer: &User, snapshots: &Vec<Option<MarketSnapshot>>, timestamp: u64, denom: &String, amount: u128) -> (r: Result<bool, ContractError>)
    ensures
        r is Ok <==> spec_withdraw_health(*withdrawer, snapshots@, timestamp, *denom, amount) is Some,
        r matches Ok(b) ==> Some(b) == spec_withdraw_health(*withdrawer, snapshots@, timestamp, *denom, amount),
{
    let positions = get_user_positions(withdrawer, snapshots, timestamp)?;
    let ghost ps = positions@;
    let r = assert_health_after_withdraw(positions, denom, amount);
    proof {
        assert(spec_user_positions(*withdrawer, snapshots@, timestamp as int) == Some(ps));
        if exists|k: int| is_first_with_denom(ps, denom@, k) {
            let k = choose|k: int| is_first_with_denom(ps, denom@, k);
            assert(is_first_with_denom(ps, denom@, k));
            assert(r is Ok <==> ps[k].collateral_amount >= amount && spec_position_health(spec_withdrawn(ps, k, amount)) is Some);
        } else {
            assert(forall|j: int| 0 <= j < ps.len() ==> ps[j].denom@ != denom@) by {
                assert forall|j: int| 0 <= j < ps.len() implies ps[j].denom@ != denom@ by {
                    if ps[j].denom@ == denom@ {
                        lemma_first_exists(ps, denom@, j);
                    }
                }
            }
        }
    }
    r
}

/// What a withdrawal changes.
#[derive(Debug)]
pub struct WithdrawOutcome {
    pub market: Market,
    /// The withdrawer's record to store, when it changed
    pub user: Option<User>,
    pub withdraw_amount: u128,
    /// maTokens burnt from the withdrawer
    pub burn_amount: u128,
    pub messages: Vec<RedBankMsg>,
    pub events: Vec<RedBankEvent>,
}

/// Burns the withdrawer's maTokens in exchange for the underlying asset.
///
/// `balance_scaled_before` is the withdrawer's maToken balance; `snapshots` are the withdrawer's
/// markets (see `get_user_positions`), read when the asset is collateral and the withdrawer
/// borrows; `contract_balance` is the contract's balance of the asset; `recipient` is the
/// address that receives the asset (the withdrawer unless another was given).
pub fn withdraw(
    market: Option<Market>,
    user: Option<User>,
    withdrawer_addr: &String,
    denom: &String,
    amount: Option<u128>,
    recipient: &String,
    balance_scaled_before: u128,
    snapshots: &Vec<Option<MarketSnapshot>>,
    contract_balance: u128,
    rewards_collector: &String,
    timestamp: u64,
) -> (r: Result<WithdrawOutcome, ContractError>)
    ensures
        market is None ==> r == Err::<WithdrawOutcome, ContractError>(ContractError::NotFound(Record::Market)),
        market matches Some(m) ==> {
            let before = spec_underlying_liquidity_amount(balance_scaled_before as int, m, timestamp as int);
            let withdraw_amount: int = match amount { Some(a) => a as int, None => before.unwrap() };
            let u = match user { Some(u) => u, None => User { collateral_assets: 0, borrowed_assets: 0 } };
            let as_collateral = bit_is_set(u.collateral_assets, m.index);
            let borrowing = u.borrowed_assets != 0;
            let refreshed = spec_refreshed_market(m, timestamp, contract_balance, withdraw_amount as u128);
            &&& (before is Some && balance_scaled_before == 0 ==> r == Err::<WithdrawOutcome, ContractError>(ContractError::UserNoBalance { denom: *denom }))
            &&& (before is Some && balance_scaled_before != 0 && amount is Some && (amount.unwrap() == 0 || amount.unwrap() > before.unwrap())
                ==> r == Err::<WithdrawOutcome, ContractError>(ContractError::InvalidWithdrawAmount { denom: *denom }))
            &&& (before is Some && balance_scaled_before != 0 && (amount is None || (amount.unwrap() != 0 && amount.unwrap() <= before.unwrap()))
                && user is None && withdrawer_addr@ != rewards_collector@
                ==> r == Err::<WithdrawOutcome, ContractError>(ContractError::ExistingUserPositionRequired))
            &&& (before is Some && balance_scaled_before != 0 && (amount is None || (amount.unwrap() != 0 && amount.unwrap() <= before.unwrap()))
                && user is Some && m.index < 128 && as_collateral && borrowing
                && spec_withdraw_health(u, snapshots@, timestamp, *denom, withdraw_amount as u128) == Some(false)
                ==> r == Err::<WithdrawOutcome, ContractError>(ContractError::InvalidHealthFactorAfterWithdraw))
            &&& (r is Ok <==> {
                &&& before matches Some(b)
                &&& balance_scaled_before != 0
                &&& (amount matches Some(a) ==> a != 0 && a <= b)
                &&& (user is None ==> withdrawer_addr@ == rewards_collector@)
                &&& m.index < 128
                &&& (as_collateral && borrowing ==> spec_withdraw_health(u, snapshots@, timestamp, *denom, withdraw_amount as u128) == Some(true))
                &&& refreshed matches Some((_, m2, _))
                &&& spec_scaled_liquidity_amount(b - withdraw_amount, m2, timestamp as int) matches Some(after)
                &&& after <= balance_scaled_before
            })
            &&& (r matches Ok(o) ==> {
                let (m1, m2, mint) = refreshed.unwrap();
                let closes = as_collateral && withdraw_amount == before.unwrap();
                &&& o.market == m2
                &&& o.withdraw_amount == withdraw_amount
                &&& Some(balance_scaled_before - o.burn_amount) == spec_scaled_liquidity_amount(before.unwrap() - withdraw_amount, m2, timestamp as int)
                &&& (closes ==> o.user == Some(User { collateral_assets: u.collateral_assets & !(1u128 << m.index), ..u }))
                &&& (!closes ==> o.user is None)
                &&& o.messages@ == reward_msgs(m1, *rewards_collector, mint)
                    .push(RedBankMsg::BurnMaToken { contract_addr: m2.ma_token_address, user: *withdrawer_addr, amount: o.burn_amount })
                    .push(RedBankMsg::SendAsset { recipient: *recipient, denom: *denom, amount: o.withdraw_amount })
                &&& o.events@ == (if closes {
                        seq![RedBankEvent::CollateralPositionChanged { denom: *denom, enabled: false, user: *withdrawer_addr }]
                    } else {
                        Seq::empty()
                    }).push(interests_updated_event(*denom, m2))
            })
        },
{
    let mut market = match market {
        Some(m) => m,
        None => return Err(ContractError::NotFound(Record::Market)),
    };
    let balance_before = get_underlying_liquidity_amount(balance_scaled_before, &market, timestamp)?;
    if balance_scaled_before == 0 {
        return Err(ContractError::UserNoBalance { denom: denom.clone() });
    }
    let withdraw_amount = match amount {
        Some(a) => {
            // Check user has sufficient balance to send back
            if a == 0 || a > balance_before {
                return Err(ContractError::InvalidWithdrawAmount { denom: denom.clone() });
            }
            a
        },
        // If no amount is specified, the full balance is withdrawn
        None => balance_before,
    };

    let mut withdrawer = match user {
        Some(u) => u,
        None => {
            // No address should withdraw without an existing user position already in
            // storage. The exception is the protocol rewards collector which gets minted
            // tokens without depositing nor receiving a transfer from another user.
            if *withdrawer_addr != *rewards_collector {
                return Err(ContractError::ExistingUserPositionRequired);
            }
            User::new()
        },
    };
    let asset_as_collateral = match get_bit(withdrawer.collateral_assets, market.index) {
        Ok(b) => b,
        Err(e) => return Err(ContractError::Bit(e)),
    };
    let user_is_borrowing = withdrawer.borrowed_assets != 0;

    // if asset is used as collateral and user is borrowing we need to validate health factor
    // after withdraw, otherwise no reasons to block the withdraw
    if asset_as_collateral && user_is_borrowing {
        let healthy = check_health_after_withdraw(&withdrawer, snapshots, timestamp, denom, withdraw_amount)?;
        if !healthy {
            return Err(ContractError::InvalidHealthFactorAfterWithdraw);
        }
    }

    let mut messages: Vec<RedBankMsg> = Vec::new();
    let mut events: Vec<RedBankEvent> = Vec::new();
    let mut user_to_save: Option<User> = None;
    // if amount to withdraw equals the user's balance then unset collateral bit
    if asset_as_collateral && withdraw_amount == balance_before {
        match unset_bit(&mut withdrawer.collateral_assets, market.index) {
            Ok(()) => {},
            Err(e) => return Err(ContractError::Bit(e)),
        }
        user_to_save = Some(withdrawer);
        events.push(build_collateral_position_changed_event(denom, false, withdrawer_addr));
    }

    // update indexes and interest rates
    accrue_interests(timestamp, rewards_collector, &mut market, &mut messages)?;
    refresh_interest_rates(contract_balance, withdraw_amount, timestamp, denom, &mut market, &mut events)?;

    // burn maToken
    let balance_after = balance_before - withdraw_amount;
    let balance_scaled_after = get_scaled_liquidity_amount(balance_after, &market, timestamp)?;
    if balance_scaled_after > balance_scaled_before {
        return Err(ContractError::Math(MathError::Overflow));
    }
    let burn_amount = balance_scaled_before - balance_scaled_after;
    messages.push(RedBankMsg::BurnMaToken {
        contract_addr: market.ma_token_address.clone(),
        user: withdrawer_addr.clone(),
        amount: burn_amount,
    });
    // send underlying asset to user or another recipient
    messages.push(RedBankMsg::SendAsset { recipient: recipient.clone(), denom: denom.clone(), amount: withdraw_amount });
    Ok(WithdrawOutcome { market, user: user_to_save, withdraw_amount, burn_amount, messages, events })
}


/// The health check before a collateralized borrow: positions gathered from the snapshots,
/// the new debt added, and whether the account stays within its max LTV.
pub open spec fn spec_borrow_health(user: User, snapshots: Seq<Option<MarketSnapshot>>, timestamp: u64, denom: String, price: Decimal, amount: u128) -> Option<bool> {
    match spec_user_positions(user, snapshots, timestamp as int) {
        Some(ps) => match spec_borrowed(ps, denom, amount, price) {
            Some(ps2) => match spec_position_health(ps2) {
                Some(h) => Some(!h.spec_is_above_max_ltv()),
                None => None,
            },
            None => None,
        },
        None => None,
    }
}

fn check_health_after_borrow(user: &User, snapshots: &Vec<Option<MarketSnapshot>>, timestamp: u64, denom: &String, price: Decimal, amount: u128) -> (r: Result<bool, ContractError>)
    ensures
        r is Ok <==> spec_borrow_health(*user, snapshots@, timestamp, *denom, price, amount) is Some,
        r matches Ok(b) ==> Some(b) == spec_borrow_health(*user, snapshots@, timestamp, *denom, price, amount),
{
    let positions = get_user_positions(user, snapshots, timestamp)?;
    assert_health_after_borrow(positions, denom, price, amount)
}

/// What a borrow changes.
#[derive(Debug)]
pub struct BorrowOutcome {
    pub market: Market,
    /// The borrower's record to store, when it changed
    pub user: Option<User>,
    /// The borrower's debt record to store
    pub debt: Debt,
    pub messages: Vec<RedBankMsg>,
    pub events: Vec<RedBankEvent>,
}

/// Whether an uncollateralized borrow stays within the limit: the current debt (at the
/// market's index brought forward) plus the new amount.
pub open spec fn spec_within_limit(m: Market, debt: Option<Debt>, timestamp: u64, amount: u128, limit: u128) -> Option<bool> {
    let scaled = match debt { Some(d) => d.amount_scaled, None => 0 };
    match spec_underlying_debt_amount(scaled as int, m, timestamp as int) {
        Some(current) => if current + amount > u128::MAX { None } else { Some(current + amount <= limit) },
        None => None,
    }
}

/// Adds debt for the borrower and sends the borrowed funds.
///
/// `limit` is the borrower's uncollateralized loan limit for the asset, if one is stored;
/// `snapshots` are the borrower's markets and `asset_price` the oracle price of the asset,
/// read when the borrow is collateralized (no positive limit); `contract_balance` is the
/// contract's balance of the asset before the funds leave; `recipient` receives them.
pub fn borrow(
    market: Option<Market>,
    user: Option<User>,
    debt: Option<Debt>,
    limit: Option<u128>,
    borrower_addr: &String,
    denom: &String,
    borrow_amount: u128,
    recipient: &String,
    snapshots: &Vec<Option<MarketSnapshot>>,
    asset_price: Decimal,
    contract_balance: u128,
    rewards_collector: &String,
    timestamp: u64,
) -> (r: Result<BorrowOutcome, ContractError>)
    ensures
        borrow_amount == 0 ==> r == Err::<BorrowOutcome, ContractError>(ContractError::InvalidBorrowAmount { denom: *denom }),
        borrow_amount != 0 && market is None ==> r == Err::<BorrowOutcome, ContractError>(ContractError::NotFound(Record::Market)),
        market matches Some(m) ==> {
            let lim: u128 = match limit { Some(l) => l, None => 0 };
            let u = match user { Some(u) => u, None => User { collateral_assets: 0, borrowed_assets: 0 } };
            let borrowing_asset = bit_is_set(u.borrowed_assets, m.index);
            let uncollateralized = lim != 0;
            let d0 = match debt { Some(d) => d, None => Debt { amount_scaled: 0, uncollateralized: uncollateralized } };
            let accrued = spec_apply_accumulated_interests(m, timestamp);
            &&& (borrow_amount != 0 && !m.borrow_enabled ==> r == Err::<BorrowOutcome, ContractError>(ContractError::BorrowNotEnabled { denom: *denom }))
            &&& (borrow_amount != 0 && m.borrow_enabled && user is None && lim == 0 ==> r == Err::<BorrowOutcome, ContractError>(ContractError::UserNoCollateral))
            &&& (borrow_amount != 0 && m.borrow_enabled && user is Some && m.index < 128 && !uncollateralized
                && spec_borrow_health(u, snapshots@, timestamp, *denom, asset_price, borrow_amount) == Some(false)
                ==> r == Err::<BorrowOutcome, ContractError>(ContractError::BorrowAmountExceedsGivenCollateral))
            &&& (borrow_amount != 0 && m.borrow_enabled && m.index < 128 && uncollateralized
                && spec_within_limit(m, debt, timestamp, borrow_amount, lim) == Some(false)
                ==> r == Err::<BorrowOutcome, ContractError>(ContractError::BorrowAmountExceedsUncollateralizedLoanLimit))
            &&& (borrow_amount != 0 && m.borrow_enabled && (user is Some || lim != 0) && m.index < 128
                && (!uncollateralized ==> spec_borrow_health(u, snapshots@, timestamp, *denom, asset_price, borrow_amount) == Some(true))
                && (uncollateralized ==> spec_within_limit(m, debt, timestamp, borrow_amount, lim) == Some(true))
                && accrued is Some
                && spec_scaled_debt_amount(borrow_amount as int, accrued.unwrap().0, timestamp as int) is Some
                && d0.amount_scaled + spec_scaled_debt_amount(borrow_amount as int, accrued.unwrap().0, timestamp as int).unwrap() <= u128::MAX
                && accrued.unwrap().0.debt_total_scaled + spec_scaled_debt_amount(borrow_amount as int, accrued.unwrap().0, timestamp as int).unwrap() <= u128::MAX
                && contract_balance < borrow_amount
                ==> r == Err::<BorrowOutcome, ContractError>(ContractError::OperationExceedsAvailableLiquidity))
            &&& (r is Ok <==> {
                &&& borrow_amount != 0
                &&& m.borrow_enabled
                &&& (user is Some || lim != 0)
                &&& m.index < 128
                &&& (!uncollateralized ==> spec_borrow_health(u, snapshots@, timestamp, *denom, asset_price, borrow_amount) == Some(true))
                &&& (uncollateralized ==> spec_within_limit(m, debt, timestamp, borrow_amount, lim) == Some(true))
                &&& accrued matches Some((m1, _))
                &&& spec_scaled_debt_amount(borrow_amount as int, m1, timestamp as int) matches Some(scaled)
                &&& d0.amount_scaled + scaled <= u128::MAX
                &&& m1.debt_total_scaled + scaled <= u128::MAX
                &&& spec_update_interest_rates(Market { debt_total_scaled: (m1.debt_total_scaled + scaled) as u128, ..m1 },
                        contract_balance, borrow_amount, timestamp) is Some
            })
            &&& (r matches Ok(o) ==> {
                let (m1, mint) = accrued.unwrap();
                let scaled = spec_scaled_debt_amount(borrow_amount as int, m1, timestamp as int).unwrap();
                &&& spec_update_interest_rates(Market { debt_total_scaled: (m1.debt_total_scaled + scaled) as u128, ..m1 },
                        contract_balance, borrow_amount, timestamp) == Some(o.market)
                &&& o.debt == Debt { amount_scaled: (d0.amount_scaled + scaled) as u128, ..d0 }
                &&& (!borrowing_asset ==> o.user == Some(User { borrowed_assets: u.borrowed_assets | (1u128 << m.index), ..u }))
                &&& (borrowing_asset ==> o.user is None)
                &&& o.messages@ == reward_msgs(m1, *rewards_collector, mint)
                    .push(RedBankMsg::SendAsset { recipient: *recipient, denom: *denom, amount: borrow_amount })
                &&& o.events@ == (if !borrowing_asset {
                        seq![RedBankEvent::DebtPositionChanged { denom: *denom, enabled: true, user: *borrower_addr }]
                    } else {
                        Seq::empty()
                    }).push(interests_updated_event(*denom, o.market))
            })
        },
{
    // Cannot borrow zero amount
    if borrow_amount == 0 {
        return Err(ContractError::InvalidBorrowAmount { denom: denom.clone() });
    }
    let mut borrow_market = match market {
        Some(m) => m,
        None => return Err(ContractError::NotFound(Record::Market)),
    };
    if !borrow_market.borrow_enabled {
        return Err(ContractError::BorrowNotEnabled { denom: denom.clone() });
    }
    let uncollateralized_loan_limit: u128 = match limit {
        Some(l) => l,
        None => 0,
    };
    let mut user = match user {
        Some(u) => u,
        None => {
            if uncollateralized_loan_limit == 0 {
                return Err(ContractError::UserNoCollateral);
            }
            // With an uncollateralized loan limit no existing position is required
            User::new()
        },
    };
    let is_borrowing_asset = match get_bit(user.borrowed_assets, borrow_market.index) {
        Ok(b) => b,
        Err(e) => return Err(ContractError::Bit(e)),
    };

    // Check if user can borrow specified amount
    let mut uncollateralized_debt = false;
    if uncollateralized_loan_limit == 0 {
        let healthy = check_health_after_borrow(&user, snapshots, timestamp, denom, asset_price, borrow_amount)?;
        if !healthy {
            return Err(ContractError::BorrowAmountExceedsGivenCollateral);
        }
    } else {
        // Uncollateralized loan: check borrow amount plus debt does not exceed the limit
        uncollateralized_debt = true;
        let scaled: u128 = match debt {
            Some(d) => d.amount_scaled,
            None => 0,
        };
        let debt_amount = get_underlying_debt_amount(scaled, &borrow_market, timestamp)?;
        let debt_after_borrow = match debt_amount.checked_add(borrow_amount) {
            Some(v) => v,
            None => return Err(ContractError::Math(MathError::Overflow)),
        };
        if debt_after_borrow > uncollateralized_loan_limit {
            return Err(ContractError::BorrowAmountExceedsUncollateralizedLoanLimit);
        }
    }

    let mut messages: Vec<RedBankMsg> = Vec::new();
    let mut events: Vec<RedBankEvent> = Vec::new();
    accrue_interests(timestamp, rewards_collector, &mut borrow_market, &mut messages)?;

    // Set borrowing asset for user
    let mut user_to_save: Option<User> = None;
    if !is_borrowing_asset {
        match set_bit(&mut user.borrowed_assets, borrow_market.index) {
            Ok(()) => {},
            Err(e) => return Err(ContractError::Bit(e)),
        }
        user_to_save = Some(user);
        events.push(build_debt_position_changed_event(denom, true, borrower_addr));
    }

    // Set new debt
    let mut new_debt = match debt {
        Some(d) => d,
        None => Debt { amount_scaled: 0, uncollateralized: uncollateralized_debt },
    };
    let borrow_amount_scaled = get_scaled_debt_amount(borrow_amount, &borrow_market, timestamp)?;
    new_debt.amount_scaled = match new_debt.amount_scaled.checked_add(borrow_amount_scaled) {
        Some(v) => v,
        None => return Err(ContractError::Math(MathError::Overflow)),
    };
    borrow_market.debt_total_scaled = match borrow_market.debt_total_scaled.checked_add(borrow_amount_scaled) {
        Some(v) => v,
        None => return Err(ContractError::Math(MathError::Overflow)),
    };
    refresh_interest_rates(contract_balance, borrow_amount, timestamp, denom, &mut borrow_market, &mut events)?;

    // Send borrow amount to borrower or another recipient
    messages.push(RedBankMsg::SendAsset { recipient: recipient.clone(), denom: denom.clone(), amount: borrow_amount });
    Ok(BorrowOutcome { market: borrow_market, user: user_to_save, debt: new_debt, messages, events })
}


/// What a repayment changes.
#[derive(Debug)]
pub struct RepayOutcome {
    pub market: Market,
    /// The address whose debt was repaid
    pub user_addr: String,
    /// The repaid debt record to store
    pub debt: Debt,
    /// The user's record to store, when the debt was fully repaid
    pub user: Option<User>,
    /// Amount sent back because it exceeded the debt
    pub refund_amount: u128,
    pub messages: Vec<RedBankMsg>,
    pub events: Vec<RedBankEvent>,
}

/// Handles the repayment of a debt in a native asset; refunds what exceeds the debt.
///
/// `on_behalf_of` is the (validated) address whose debt is repaid instead of the sender's, and
/// `on_behalf_of_limit` that address's uncollateralized loan limit for the asset, if stored;
/// `debt`, `market` and `user` are the records of the repaid address; `contract_balance` is the
/// contract's balance of the asset, the repayment included.
pub fn repay(
    market: Option<Market>,
    debt: Option<Debt>,
    user: Option<User>,
    sender_addr: &String,
    on_behalf_of: Option<String>,
    on_behalf_of_limit: Option<u128>,
    denom: &String,
    repay_amount: u128,
    contract_balance: u128,
    rewards_collector: &String,
    timestamp: u64,
) -> (r: Result<RepayOutcome, ContractError>)
    ensures
        on_behalf_of is Some && (on_behalf_of_limit matches Some(l) && l != 0) ==> r == Err::<RepayOutcome, ContractError>(ContractError::CannotRepayUncollateralizedLoanOnBehalfOf),
        ({
            let user_addr = match on_behalf_of { Some(a) => a, None => *sender_addr };
            let allowed = !(on_behalf_of is Some && (on_behalf_of_limit matches Some(l) && l != 0));
            &&& (allowed && repay_amount == 0 ==> r == Err::<RepayOutcome, ContractError>(ContractError::InvalidRepayAmount { denom: *denom }))
            &&& (allowed && repay_amount != 0 && debt is None ==> r == Err::<RepayOutcome, ContractError>(ContractError::NotFound(Record::Debt)))
            &&& (allowed && repay_amount != 0 && (debt matches Some(d) && d.amount_scaled == 0) ==> r == Err::<RepayOutcome, ContractError>(ContractError::CannotRepayZeroDebt))
            &&& (allowed && repay_amount != 0 && debt is Some && debt.unwrap().amount_scaled != 0 && market is None
                ==> r == Err::<RepayOutcome, ContractError>(ContractError::NotFound(Record::Market)))
            &&& (r is Ok <==> {
                &&& allowed
                &&& repay_amount != 0
                &&& debt matches Some(d)
                &&& d.amount_scaled != 0
                &&& market matches Some(m)
                &&& spec_apply_accumulated_interests(m, timestamp) matches Some((m1, _))
                &&& spec_underlying_debt_amount(d.amount_scaled as int, m1, timestamp as int) matches Some(before)
                &&& spec_scaled_debt_amount(if repay_amount > before { 0 } else { before - repay_amount }, m1, timestamp as int) matches Some(after)
                &&& after <= d.amount_scaled
                &&& d.amount_scaled - after <= m1.debt_total_scaled
                &&& spec_update_interest_rates(Market { debt_total_scaled: (m1.debt_total_scaled - (d.amount_scaled - after)) as u128, ..m1 },
                        contract_balance, 0, timestamp) is Some
                &&& (after == 0 ==> (user is Some && m.index < 128))
            })
            &&& (r matches Ok(o) ==> {
                let d = debt.unwrap();
                let m = market.unwrap();
                let (m1, mint) = spec_apply_accumulated_interests(m, timestamp).unwrap();
                let before = spec_underlying_debt_amount(d.amount_scaled as int, m1, timestamp as int).unwrap();
                let refund: int = if repay_amount > before { repay_amount - before } else { 0 };
                let after = spec_scaled_debt_amount(if repay_amount > before { 0 } else { before - repay_amount }, m1, timestamp as int).unwrap();
                &&& o.user_addr == user_addr
                &&& o.refund_amount == refund
                &&& o.debt == Debt { amount_scaled: after as u128, ..d }
                &&& spec_update_interest_rates(Market { debt_total_scaled: (m1.debt_total_scaled - (d.amount_scaled - after)) as u128, ..m1 },
                        contract_balance, 0, timestamp) == Some(o.market)
                &&& (after == 0 ==> o.user == Some(User { borrowed_assets: user.unwrap().borrowed_assets & !(1u128 << m.index), ..user.unwrap() }))
                &&& (after != 0 ==> o.user is None)
                &&& o.messages@ == reward_msgs(m1, *rewards_collector, mint) + (if refund > 0 {
                        seq![RedBankMsg::SendAsset { recipient: user_addr, denom: *denom, amount: refund as u128 }]
                    } else {
                        Seq::empty()
                    })
                &&& o.events@ == seq![interests_updated_event(*denom, o.market)] + (if after == 0 {
                        seq![RedBankEvent::DebtPositionChanged { denom: *denom, enabled: false, user: user_addr }]
                    } else {
                        Seq::empty()
                    })
            })
        }),
{
    let user_addr = match on_behalf_of {
        Some(addr) => {
            // Uncollateralized loans should not be repaid on behalf of another address because
            // it creates accounting complexity for them
            match on_behalf_of_limit {
                Some(l) => {
                    if l != 0 {
                        return Err(ContractError::CannotRepayUncollateralizedLoanOnBehalfOf);
                    }
                },
                None => {},
            }
            addr
        },
        None => sender_addr.clone(),
    };

    // Cannot repay zero amount
    if repay_amount == 0 {
        return Err(ContractError::InvalidRepayAmount { denom: denom.clone() });
    }
    let mut debt = match debt {
        Some(d) => d,
        None => return Err(ContractError::NotFound(Record::Debt)),
    };
    if debt.amount_scaled == 0 {
        return Err(ContractError::CannotRepayZeroDebt);
    }
    let mut market = match market {
        Some(m) => m,
        None => return Err(ContractError::NotFound(Record::Market)),
    };
    let ghost m0 = market;

    let mut messages: Vec<RedBankMsg> = Vec::new();
    let mut events: Vec<RedBankEvent> = Vec::new();
    accrue_interests(timestamp, rewards_collector, &mut market, &mut messages)?;

    let debt_amount_scaled_before = debt.amount_scaled;
    let debt_amount_before = get_underlying_debt_amount(debt.amount_scaled, &market, timestamp)?;

    // If repay amount exceeds debt, refund any excess amounts
    let mut refund_amount: u128 = 0;
    let mut debt_amount_after: u128 = 0;
    if repay_amount > debt_amount_before {
        refund_amount = repay_amount - debt_amount_before;
        messages.push(RedBankMsg::SendAsset { recipient: user_addr.clone(), denom: denom.clone(), amount: refund_amount });
    } else {
        debt_amount_after = debt_amount_before - repay_amount;
    }

    let debt_amount_scaled_after = get_scaled_debt_amount(debt_amount_after, &market, timestamp)?;
    debt.amount_scaled = debt_amount_scaled_after;
    if debt_amount_scaled_after > debt_amount_scaled_before {
        return Err(ContractError::Math(MathError::Overflow));
    }
    let debt_amount_scaled_delta = debt_amount_scaled_before - debt_amount_scaled_after;
    if debt_amount_scaled_delta > market.debt_total_scaled {
        return Err(ContractError::Math(MathError::Overflow));
    }
    market.debt_total_scaled = market.debt_total_scaled - debt_amount_scaled_delta;
    refresh_interest_rates(contract_balance, 0, timestamp, denom, &mut market, &mut events)?;

    let mut user_to_save: Option<User> = None;
    if debt.amount_scaled == 0 {
        // Remove asset from borrowed assets
        let mut u = match user {
            Some(u) => u,
            None => return Err(ContractError::NotFound(Record::User)),
        };
        match unset_bit(&mut u.borrowed_assets, market.index) {
            Ok(()) => {},
            Err(e) => return Err(ContractError::Bit(e)),
        }
        user_to_save = Some(u);
        events.push(build_debt_position_changed_event(denom, false, &user_addr));
    }
    Ok(RepayOutcome { market, user_addr, debt, user: user_to_save, refund_amount, messages, events })
}


/// The price recorded in the first position in `denom`, if any.
pub open spec fn spec_price_of(ps: Seq<Position>, denom: String) -> Option<Decimal> {
    if exists|k: int| is_first_with_denom(ps, denom@, k) {
        Some(ps[choose|k: int| is_first_with_denom(ps, denom@, k)].asset_price)
    } else {
        None
    }
}

fn price_of(positions: &Vec<Position>, denom: &String) -> (r: Option<Decimal>)
    ensures
        r == spec_price_of(positions@, *denom),
{
    match find_position(positions, denom) {
        Some(k) => {
            proof {
                let k2 = choose|k2: int| is_first_with_denom(positions@, denom@, k2);
                lemma_first_with_denom_unique(positions@, denom@, k as int, k2);
            }
            Some(positions[k].asset_price)
        },
        None => {
            proof {
                if exists|k: int| is_first_with_denom(positions@, denom@, k) {
                    let k = choose|k: int| is_first_with_denom(positions@, denom@, k);
                    assert(positions@[k].denom@ == denom@);
                }
            }
            None
        },
    }
}

/// The liquidator takes the collateral as maTokens: they move from the user to the liquidator,
/// and the asset becomes the liquidator's collateral if it was not. Returns the liquidator's
/// record when it changed.
pub fn process_ma_token_transfer_to_liquidator(
    liquidator: Option<User>,
    user_addr: &String,
    liquidator_addr: &String,
    collateral_denom: &String,
    collateral_market: &Market,
    collateral_amount_to_liquidate: u128,
    timestamp: u64,
    messages: &mut Vec<RedBankMsg>,
    events: &mut Vec<RedBankEvent>,
) -> (r: Result<Option<User>, ContractError>)
    ensures
        ({
            let l = match liquidator { Some(l) => l, None => User { collateral_assets: 0, borrowed_assets: 0 } };
            let scaled = spec_scaled_liquidity_amount(collateral_amount_to_liquidate as int, *collateral_market, timestamp as int);
            &&& (r is Ok <==> collateral_market.index < 128 && scaled is Some)
            &&& r matches Ok(saved) ==> {
                &&& bit_is_set(l.collateral_assets, collateral_market.index) ==> saved is None && final(events)@ == old(events)@
                &&& !bit_is_set(l.collateral_assets, collateral_market.index) ==> {
                    &&& saved == Some(User { collateral_assets: l.collateral_assets | (1u128 << collateral_market.index), ..l })
                    &&& final(events)@ == old(events)@.push(RedBankEvent::CollateralPositionChanged {
                        denom: *collateral_denom, enabled: true, user: *liquidator_addr })
                }
                &&& final(messages)@ == old(messages)@.push(RedBankMsg::TransferMaTokenOnLiquidation {
                    contract_addr: collateral_market.ma_token_address,
                    sender: *user_addr,
                    recipient: *liquidator_addr,
                    amount: scaled->0 as u128,
                })
            }
        }),
{
    let mut liq = match liquidator {
        Some(l) => l,
        None => User::new(),
    };
    let mut saved: Option<User> = None;
    // Set liquidator's deposited bit to true if not already true
    let liquidator_is_using_as_collateral = match get_bit(liq.collateral_assets, collateral_market.index) {
        Ok(b) => b,
        Err(e) => return Err(ContractError::Bit(e)),
    };
    if !liquidator_is_using_as_collateral {
        match set_bit(&mut liq.collateral_assets, collateral_market.index) {
            Ok(()) => {},
            Err(e) => return Err(ContractError::Bit(e)),
        }
        saved = Some(liq);
        events.push(build_collateral_position_changed_event(collateral_denom, true, liquidator_addr));
    }
    let scaled = get_scaled_liquidity_amount(collateral_amount_to_liquidate, collateral_market, timestamp)?;
    messages.push(RedBankMsg::TransferMaTokenOnLiquidation {
        contract_addr: collateral_market.ma_token_address.clone(),
        sender: user_addr.clone(),
        recipient: liquidator_addr.clone(),
        amount: scaled,
    });
    Ok(saved)
}

/// The liquidator takes the collateral as the underlying asset: the user's maTokens are burnt
/// and the contract, which must hold enough of the asset, sends it to the liquidator.
pub fn process_underlying_asset_transfer_to_liquidator(
    user_addr: &String,
    liquidator_addr: &String,
    collateral_denom: &String,
    collateral_market: &Market,
    collateral_amount_to_liquidate: u128,
    contract_collateral_balance: u128,
    timestamp: u64,
    messages: &mut Vec<RedBankMsg>,
) -> (r: Result<(), ContractError>)
    ensures
        contract_collateral_balance < collateral_amount_to_liquidate ==> r == Err::<(), ContractError>(
            ContractError::CannotLiquidateWhenNotEnoughCollateral),
        ({
            let scaled = spec_scaled_liquidity_amount(collateral_amount_to_liquidate as int, *collateral_market, timestamp as int);
            &&& (r is Ok <==> contract_collateral_balance >= collateral_amount_to_liquidate && scaled is Some)
            &&& r is Ok ==> final(messages)@ == old(messages)@.push(RedBankMsg::BurnMaToken {
                    contract_addr: collateral_market.ma_token_address,
                    user: *user_addr,
                    amount: scaled->0 as u128,
                }).push(RedBankMsg::SendAsset {
                    recipient: *liquidator_addr,
                    denom: *collateral_denom,
                    amount: collateral_amount_to_liquidate,
                })
        }),
{
    // Ensure contract has enough collateral to send back underlying asset
    if contract_collateral_balance < collateral_amount_to_liquidate {
        return Err(ContractError::CannotLiquidateWhenNotEnoughCollateral);
    }
    let scaled = get_scaled_liquidity_amount(collateral_amount_to_liquidate, collateral_market, timestamp)?;
    messages.push(RedBankMsg::BurnMaToken {
        contract_addr: collateral_market.ma_token_address.clone(),
        user: user_addr.clone(),
        amount: scaled,
    });
    messages.push(RedBankMsg::SendAsset {
        recipient: liquidator_addr.clone(),
        denom: collateral_denom.clone(),
        amount: collateral_amount_to_liquidate,
    });
    Ok(())
}

/// What a liquidation changes.
#[derive(Debug)]
pub struct LiquidateOutcome {
    /// The collateral market to store, when it changed
    pub collateral_market: Option<Market>,
    /// The debt market to store (the collateral market when both are the same asset)
    pub debt_market: Market,
    /// The liquidated user's record to store, when it changed
    pub user: Option<User>,
    /// The liquidator's record to store, when it changed
    pub liquidator: Option<User>,
    /// The liquidated user's debt record to store
    pub debt: Debt,
    pub debt_amount_repaid: u128,
    pub collateral_amount_liquidated: u128,
    pub refund_amount: u128,
    pub messages: Vec<RedBankMsg>,
    pub events: Vec<RedBankEvent>,
}

/// What the liquidation's validation and amount computation yield: the user's collateral
/// balance, the liquidation health of the account, the prices, the user's total debt and the
/// amounts (repay, collateral, refund).
pub open spec fn spec_liquidation_inputs(
    cm: Market,
    dm: Market,
    u: User,
    d: Debt,
    config: Config,
    balance_scaled: u128,
    snapshots: Seq<Option<MarketSnapshot>>,
    collateral_denom: String,
    debt_denom: String,
    sent: u128,
    timestamp: u64,
) -> Option<(int, int, int, int)> {
    match (spec_underlying_liquidity_amount(balance_scaled as int, cm, timestamp as int),
        spec_user_positions(u, snapshots, timestamp as int)) {
        (Some(balance), Some(ps)) => match (spec_price_of(ps, collateral_denom), spec_price_of(ps, debt_denom),
            spec_underlying_debt_amount(d.amount_scaled as int, dm, timestamp as int)) {
            (Some(cp), Some(dp), Some(total_debt)) => match spec_liquidation_amounts(cp.val(), dp.val(), config.close_factor.val(),
                balance, cm.liquidation_bonus.val(), total_debt, sent as int) {
                Some((repay, coll, refund)) => Some((balance, total_debt, repay, coll)),
                None => None,
            },
            _ => None,
        },
        _ => None,
    }
}

/// The markets a liquidation stores succeed to update: interest is accrued on each market it
/// touches and the rates are recomputed from the liquidity and debt after the liquidation.
#[verifier::opaque]
pub open spec fn spec_liquidation_markets_update(
    cm: Market,
    dm: Market,
    same_asset: bool,
    receive_ma_token: bool,
    debt_total_scaled_after: int,
    coll: int,
    refund: int,
    contract_collateral_balance: u128,
    contract_debt_balance: u128,
    timestamp: u64,
) -> bool {
    if same_asset {
        let liquidity_taken = if receive_ma_token { refund } else { refund + coll };
        &&& spec_apply_accumulated_interests(cm, timestamp) is Some
        &&& liquidity_taken <= u128::MAX
        &&& spec_update_interest_rates(
            Market { debt_total_scaled: debt_total_scaled_after as u128, ..spec_apply_accumulated_interests(cm, timestamp).unwrap().0 },
            contract_debt_balance, liquidity_taken as u128, timestamp) is Some
    } else {
        &&& (!receive_ma_token ==> {
            &&& spec_apply_accumulated_interests(cm, timestamp) is Some
            &&& spec_update_interest_rates(spec_apply_accumulated_interests(cm, timestamp).unwrap().0,
                contract_collateral_balance, coll as u128, timestamp) is Some
        })
        &&& spec_apply_accumulated_interests(dm, timestamp) is Some
        &&& spec_update_interest_rates(
            Market { debt_total_scaled: debt_total_scaled_after as u128, ..spec_apply_accumulated_interests(dm, timestamp).unwrap().0 },
            contract_debt_balance, refund as u128, timestamp) is Some
    }
}

/// The messages that move the liquidated collateral (`coll`, `scaled` deposit units) from the
/// user to the liquidator: a maToken transfer, or a burn and a send of the underlying asset.
pub open spec fn collateral_transfer_msgs(
    cm: Market,
    user_addr: String,
    liquidator_addr: String,
    collateral_denom: String,
    coll: int,
    scaled: int,
    receive_ma_token: bool,
) -> Seq<RedBankMsg> {
    if receive_ma_token {
        seq![RedBankMsg::TransferMaTokenOnLiquidation {
            contract_addr: cm.ma_token_address,
            sender: user_addr,
            recipient: liquidator_addr,
            amount: scaled as u128,
        }]
    } else {
        seq![
            RedBankMsg::BurnMaToken { contract_addr: cm.ma_token_address, user: user_addr, amount: scaled as u128 },
            RedBankMsg::SendAsset { recipient: liquidator_addr, denom: collateral_denom, amount: coll as u128 },
        ]
    }
}

/// What a liquidation does to the markets it touches (when `spec_liquidation_markets_update`
/// holds): the collateral market to store when it changes, the debt market to store, the
/// reward mints of the interest accrued and the interests-updated events, in that order.
#[verifier::opaque]
pub open spec fn spec_liquidation_markets(
    cm: Market,
    dm: Market,
    same_asset: bool,
    receive_ma_token: bool,
    debt_total_scaled_after: int,
    coll: int,
    refund: int,
    contract_collateral_balance: u128,
    contract_debt_balance: u128,
    timestamp: u64,
    collector: String,
    collateral_denom: String,
    debt_denom: String,
) -> (Option<Market>, Market, Seq<RedBankMsg>, Seq<RedBankEvent>) {
    if same_asset {
        let (m1, mint) = spec_apply_accumulated_interests(cm, timestamp).unwrap();
        let liquidity_taken = if receive_ma_token { refund } else { refund + coll };
        let m2 = spec_update_interest_rates(Market { debt_total_scaled: debt_total_scaled_after as u128, ..m1 },
            contract_debt_balance, liquidity_taken as u128, timestamp).unwrap();
        (None, m2, reward_msgs(m1, collector, mint), seq![interests_updated_event(debt_denom, m2)])
    } else {
        let (d1, dmint) = spec_apply_accumulated_interests(dm, timestamp).unwrap();
        let d2 = spec_update_interest_rates(Market { debt_total_scaled: debt_total_scaled_after as u128, ..d1 },
            contract_debt_balance, refund as u128, timestamp).unwrap();
        if receive_ma_token {
            (None, d2, reward_msgs(d1, collector, dmint), seq![interests_updated_event(debt_denom, d2)])
        } else {
            let (c1, cmint) = spec_apply_accumulated_interests(cm, timestamp).unwrap();
            let c2 = spec_update_interest_rates(c1, contract_collateral_balance, coll as u128, timestamp).unwrap();
            (Some(c2), d2, reward_msgs(c1, collector, cmint) + reward_msgs(d1, collector, dmint),
                seq![interests_updated_event(collateral_denom, c2), interests_updated_event(debt_denom, d2)])
        }
    }
}

/// The rates a liquidation leaves follow the liquidity it leaves. Each market it touches is
/// brought to the current time and its rates are set to the model's rates at the utilization
/// "debt / (liquidity still available + debt)": for the debt market, the contract's balance of
/// the debt asset less the refund sent back; for the collateral market of a different asset,
/// when the liquidator takes the underlying collateral, the contract's balance of the collateral
/// less the collateral sent to the liquidator (when the assets are the same, both leave the one
/// market). With maTokens no collateral leaves the contract and the collateral market is kept.
pub proof fn lemma_liquidation_rates_follow_liquidity(
    cm: Market,
    dm: Market,
    same_asset: bool,
    receive_ma_token: bool,
    debt_total_scaled_after: u128,
    coll: u128,
    refund: u128,
    contract_collateral_balance: u128,
    contract_debt_balance: u128,
    timestamp: u64,
    collector: String,
    collateral_denom: String,
    debt_denom: String,
)
    requires
        spec_liquidation_markets_update(cm, dm, same_asset, receive_ma_token, debt_total_scaled_after as int,
            coll as int, refund as int, contract_collateral_balance, contract_debt_balance, timestamp),
    ensures
        ({
            let d = DECIMAL_FRACTIONAL as int;
            let mk = spec_liquidation_markets(cm, dm, same_asset, receive_ma_token, debt_total_scaled_after as int,
                coll as int, refund as int, contract_collateral_balance, contract_debt_balance, timestamp, collector,
                collateral_denom, debt_denom);
            // the debt market
            let dm0 = if same_asset { cm } else { dm };
            let d1 = spec_apply_accumulated_interests(dm0, timestamp).unwrap().0;
            let debt = spec_underlying_debt_amount(debt_total_scaled_after as int, d1, timestamp as int).unwrap();
            let left = contract_debt_balance - refund - (if same_asset && !receive_ma_token { coll as int } else { 0 });
            let u = if debt > 0 { debt * d / (left + debt) } else { 0 };
            &&& left >= 0
            &&& mk.1.debt_total_scaled == debt_total_scaled_after
            &&& mk.1.borrow_index == d1.borrow_index && mk.1.liquidity_index == d1.liquidity_index
            &&& mk.1.indexes_last_updated == d1.indexes_last_updated
            &&& Some(mk.1.borrow_rate.val()) == spec_borrow_rate(dm0.interest_rate_model, u)
            &&& Some(mk.1.liquidity_rate.val()) == spec_liquidity_rate(mk.1.borrow_rate.val(), u, dm0.reserve_factor.val())
            // the collateral market
            &&& (same_asset || receive_ma_token ==> mk.0 is None)
            &&& (!same_asset && !receive_ma_token ==> {
                let c1 = spec_apply_accumulated_interests(cm, timestamp).unwrap().0;
                let cdebt = spec_underlying_debt_amount(c1.debt_total_scaled as int, c1, timestamp as int).unwrap();
                let cleft = contract_collateral_balance - coll;
                let cu = if cdebt > 0 { cdebt * d / (cleft + cdebt) } else { 0 };
                &&& cleft >= 0
                &&& mk.0 is Some
                &&& mk.0.unwrap().debt_total_scaled == cm.debt_total_scaled
                &&& mk.0.unwrap().borrow_index == c1.borrow_index && mk.0.unwrap().liquidity_index == c1.liquidity_index
                &&& Some(mk.0.unwrap().borrow_rate.val()) == spec_borrow_rate(cm.interest_rate_model, cu)
                &&& Some(mk.0.unwrap().liquidity_rate.val()) == spec_liquidity_rate(mk.0.unwrap().borrow_rate.val(), cu, cm.reserve_factor.val())
            })
        }),
{
    reveal(spec_liquidation_markets_update);
    reveal(spec_liquidation_markets);
}

/// When a liquidation succeeds: the user has no uncollateralized loan limit, uses the
/// collateral asset as collateral with a positive balance, has debt in the debt asset and a
/// liquidatable account; the amounts compute, the contract holds the collateral it is to send,
/// and the debt and markets update.
pub open spec fn spec_liquidation_succeeds(
    collateral_market: Option<Market>,
    debt_market: Option<Market>,
    user: Option<User>,
    debt: Option<Debt>,
    limit: Option<u128>,
    config: Config,
    collateral_denom: String,
    debt_denom: String,
    sent: u128,
    receive_ma_token: bool,
    balance_scaled: u128,
    snapshots: Seq<Option<MarketSnapshot>>,
    contract_collateral_balance: u128,
    contract_debt_balance: u128,
    timestamp: u64,
) -> bool {
    let u = user.unwrap();
    let cm = collateral_market.unwrap();
    let d = debt.unwrap();
    let same = collateral_denom@ == debt_denom@;
    let dm = if same { cm } else { debt_market.unwrap() };
    let inputs = spec_liquidation_inputs(cm, dm, u, d, config, balance_scaled, snapshots, collateral_denom, debt_denom, sent, timestamp);
    let ps = spec_user_positions(u, snapshots, timestamp as int);
    let balance = inputs.unwrap().0;
    let total_debt = inputs.unwrap().1;
    let repay = inputs.unwrap().2;
    let coll = inputs.unwrap().3;
    let after = spec_scaled_debt_amount(total_debt - repay, dm, timestamp as int);
    &&& !(limit is Some && limit.unwrap() != 0)
    &&& user is Some
    &&& collateral_market is Some
    &&& cm.index < 128
    &&& bit_is_set(u.collateral_assets, cm.index)
    &&& spec_underlying_liquidity_amount(balance_scaled as int, cm, timestamp as int) is Some
    &&& spec_underlying_liquidity_amount(balance_scaled as int, cm, timestamp as int).unwrap() > 0
    &&& debt is Some
    &&& d.amount_scaled > 0
    &&& ps is Some
    &&& spec_position_health(ps.unwrap()) is Some
    &&& spec_position_health(ps.unwrap()).unwrap().spec_is_liquidatable()
    &&& (same || debt_market is Some)
    &&& inputs is Some
    &&& spec_scaled_liquidity_amount(coll, cm, timestamp as int) is Some
    &&& (!receive_ma_token ==> contract_collateral_balance >= coll)
    &&& repay <= total_debt
    &&& after is Some
    &&& after.unwrap() <= d.amount_scaled
    &&& d.amount_scaled - after.unwrap() <= dm.debt_total_scaled
    &&& spec_liquidation_markets_update(cm, dm, same, receive_ma_token,
        dm.debt_total_scaled - (d.amount_scaled - after.unwrap()), coll, sent - repay,
        contract_collateral_balance, contract_debt_balance, timestamp)
}

/// Accrues interest on the markets a liquidation touches, stores the debt market's new total
/// debt, and recomputes the rates from the liquidity and debt after the liquidation; returns
/// the collateral market to store when it changes and the debt market to store.
fn update_liquidation_markets(
    collateral_market: Market,
    debt_market: Market,
    same_asset: bool,
    receive_ma_token: bool,
    debt_total_scaled_after: u128,
    collateral_amount: u128,
    refund_amount: u128,
    contract_collateral_balance: u128,
    contract_debt_balance: u128,
    timestamp: u64,
    collector: &String,
    collateral_denom: &String,
    debt_denom: &String,
    messages: &mut Vec<RedBankMsg>,
    events: &mut Vec<RedBankEvent>,
) -> (r: Result<(Option<Market>, Market), ContractError>)
    ensures
        r is Ok <==> spec_liquidation_markets_update(collateral_market, debt_market, same_asset, receive_ma_token,
            debt_total_scaled_after as int, collateral_amount as int, refund_amount as int, contract_collateral_balance,
            contract_debt_balance, timestamp),
        r matches Ok(res) ==> {
            let mk = spec_liquidation_markets(collateral_market, debt_market, same_asset, receive_ma_token,
                debt_total_scaled_after as int, collateral_amount as int, refund_amount as int, contract_collateral_balance,
                contract_debt_balance, timestamp, *collector, *collateral_denom, *debt_denom);
            &&& res.0 == mk.0
            &&& res.1 == mk.1
            &&& res.1.debt_total_scaled == debt_total_scaled_after
            &&& final(messages)@ == old(messages)@ + mk.2
            &&& final(events)@ == old(events)@ + mk.3
        },
{
    reveal(spec_liquidation_markets_update);
    reveal(spec_liquidation_markets);
    let ghost msgs0 = messages@;
    let ghost evs0 = events@;
    if same_asset {
        let mut asset_market_after = collateral_market;
        accrue_interests(timestamp, collector, &mut asset_market_after, messages)?;
        asset_market_after.debt_total_scaled = debt_total_scaled_after;
        let mut less_liquidity = refund_amount;
        if !receive_ma_token {
            less_liquidity = match less_liquidity.checked_add(collateral_amount) {
                Some(v) => v,
                None => return Err(ContractError::Math(MathError::Overflow)),
            };
        }
        refresh_interest_rates(contract_debt_balance, less_liquidity, timestamp, debt_denom, &mut asset_market_after, events)?;
        proof {
            assert(events@ =~= evs0 + seq![interests_updated_event(*debt_denom, asset_market_after)]);
        }
        Ok((None, asset_market_after))
    } else {
        let mut collateral_market_to_save: Option<Market> = None;
        if !receive_ma_token {
            let mut collateral_market_after = collateral_market;
            accrue_interests(timestamp, collector, &mut collateral_market_after, messages)?;
            refresh_interest_rates(contract_collateral_balance, collateral_amount, timestamp, collateral_denom,
                &mut collateral_market_after, events)?;
            collateral_market_to_save = Some(collateral_market_after);
        }
        let ghost msgs1 = messages@;
        let ghost evs1 = events@;
        let mut dm = debt_market;
        accrue_interests(timestamp, collector, &mut dm, messages)?;
        dm.debt_total_scaled = debt_total_scaled_after;
        refresh_interest_rates(contract_debt_balance, refund_amount, timestamp, debt_denom, &mut dm, events)?;
        proof {
            let mk = spec_liquidation_markets(collateral_market, debt_market, same_asset, receive_ma_token,
                debt_total_scaled_after as int, collateral_amount as int, refund_amount as int, contract_collateral_balance,
                contract_debt_balance, timestamp, *collector, *collateral_denom, *debt_denom);
            assert(events@ =~= evs1 + seq![interests_updated_event(*debt_denom, dm)]);
            if receive_ma_token {
                assert(msgs1 == msgs0);
                assert(evs1 == evs0);
                assert(messages@ =~= msgs0 + mk.2);
                assert(events@ =~= evs0 + mk.3);
            } else {
                assert(messages@ =~= msgs0 + mk.2);
                assert(events@ =~= evs0 + mk.3);
            }
        }
        Ok((collateral_market_to_save, dm))
    }
}

/// Executes the liquidation of an undercollateralized account: the liquidator repays part of
/// the user's debt in `debt_denom` and receives the user's collateral in `collateral_denom`
/// (as maTokens, or as the underlying asset), with a bonus.
///
/// `limit` is the user's uncollateralized loan limit in the debt asset, if stored;
/// `balance_scaled` is the user's maToken balance of the collateral; `snapshots` are the
/// user's markets; `debt_market` is the stored debt market (read when the assets differ);
/// `liquidator` is the liquidator's record (read when receiving maTokens);
/// `contract_collateral_balance` and `contract_debt_balance` are the contract's balances of the
/// two assets, the sent amount included.
#[verifier::spinoff_prover]
#[verifier::rlimit(40)]
pub fn liquidate(
    collateral_market: Option<Market>,
    debt_market: Option<Market>,
    user: Option<User>,
    debt: Option<Debt>,
    liquidator: Option<User>,
    limit: Option<u128>,
    config: &Config,
    user_addr: &String,
    liquidator_addr: &String,
    collateral_denom: &String,
    debt_denom: &String,
    sent_debt_asset_amount: u128,
    receive_ma_token: bool,
    balance_scaled: u128,
    snapshots: &Vec<Option<MarketSnapshot>>,
    contract_collateral_balance: u128,
    contract_debt_balance: u128,
    rewards_collector: &String,
    timestamp: u64,
) -> (r: Result<LiquidateOutcome, ContractError>)
    ensures
        r is Ok <==> spec_liquidation_succeeds(collateral_market, debt_market, user, debt, limit, *config, *collateral_denom,
            *debt_denom, sent_debt_asset_amount, receive_ma_token, balance_scaled, snapshots@, contract_collateral_balance,
            contract_debt_balance, timestamp),
        ({
            let u = user.unwrap();
            let cm = collateral_market.unwrap();
            let d = debt.unwrap();
            let same = collateral_denom@ == debt_denom@;
            let dm = if same { cm } else { debt_market.unwrap() };
            let balance = spec_underlying_liquidity_amount(balance_scaled as int, cm, timestamp as int);
            let ps = spec_user_positions(u, snapshots@, timestamp as int);
            let inputs = spec_liquidation_inputs(cm, dm, u, d, *config, balance_scaled, snapshots@, *collateral_denom,
                *debt_denom, sent_debt_asset_amount, timestamp);
            let flagged = !(limit is Some && limit.unwrap() != 0) && user is Some && collateral_market is Some
                && cm.index < 128 && bit_is_set(u.collateral_assets, cm.index);
            let funded = flagged && balance is Some && balance.unwrap() > 0 && debt is Some && d.amount_scaled > 0;
            &&& (flagged && balance == Some(0int)) ==> r == Err::<LiquidateOutcome, ContractError>(
                ContractError::CannotLiquidateWhenNoCollateralBalance)
            &&& (flagged && balance is Some && balance.unwrap() > 0 && debt is None) ==> r == Err::<LiquidateOutcome, ContractError>(
                ContractError::NotFound(Record::Debt))
            &&& (flagged && balance is Some && balance.unwrap() > 0 && debt is Some && d.amount_scaled == 0)
                ==> r == Err::<LiquidateOutcome, ContractError>(ContractError::CannotLiquidateWhenNoDebtBalance)
            &&& (funded && ps is Some && spec_position_health(ps.unwrap()) is Some
                && !spec_position_health(ps.unwrap()).unwrap().spec_is_liquidatable())
                ==> r == Err::<LiquidateOutcome, ContractError>(ContractError::CannotLiquidateHealthyPosition)
            &&& (funded && ps is Some && spec_position_health(ps.unwrap()) is Some
                && spec_position_health(ps.unwrap()).unwrap().spec_is_liquidatable() && (same || debt_market is Some)
                && inputs is Some && !receive_ma_token && contract_collateral_balance < inputs.unwrap().3)
                ==> r == Err::<LiquidateOutcome, ContractError>(ContractError::CannotLiquidateWhenNotEnoughCollateral)
        }),
        (limit matches Some(l) && l != 0) ==> r == Err::<LiquidateOutcome, ContractError>(ContractError::CannotLiquidateWhenPositiveUncollateralizedLoanLimit),
        !(limit matches Some(l) && l != 0) && user is None ==> r == Err::<LiquidateOutcome, ContractError>(ContractError::NotFound(Record::User)),
        !(limit matches Some(l) && l != 0) && user is Some && collateral_market is None ==> r == Err::<LiquidateOutcome, ContractError>(ContractError::NotFound(Record::Market)),
        (!(limit matches Some(l) && l != 0) && (user matches Some(u) && (collateral_market matches Some(cm) && cm.index < 128 && !bit_is_set(u.collateral_assets, cm.index))))
            ==> r == Err::<LiquidateOutcome, ContractError>(ContractError::CannotLiquidateWhenCollateralUnset { denom: *collateral_denom }),
        r matches Ok(o) ==> {
            let u = user.unwrap();
            let cm = collateral_market.unwrap();
            let d = debt.unwrap();
            let same = collateral_denom@ == debt_denom@;
            let dm = if same { cm } else { debt_market.unwrap() };
            let inputs = spec_liquidation_inputs(cm, dm, u, d, *config, balance_scaled, snapshots@, *collateral_denom, *debt_denom, sent_debt_asset_amount, timestamp);
            let (balance, total_debt, repay, coll) = inputs.unwrap();
            &&& !(limit matches Some(l) && l != 0)
            &&& bit_is_set(u.collateral_assets, cm.index)
            &&& balance > 0
            &&& d.amount_scaled > 0
            &&& spec_user_positions(u, snapshots@, timestamp as int) matches Some(ps)
                && spec_position_health(ps) matches Some(h) && h.spec_is_liquidatable()
            &&& inputs is Some
            &&& o.debt_amount_repaid == repay
            &&& o.collateral_amount_liquidated == coll
            &&& o.refund_amount == sent_debt_asset_amount - repay
            // the liquidation bounds
            &&& o.debt_amount_repaid <= sent_debt_asset_amount
            &&& o.debt_amount_repaid <= spec_mul_floor(total_debt, config.close_factor.val())
            &&& o.collateral_amount_liquidated <= balance
            // the user's debt shrinks to the scaled remainder
            &&& Some(o.debt.amount_scaled as int) == spec_scaled_debt_amount(total_debt - repay, dm, timestamp as int)
            &&& o.debt.uncollateralized == d.uncollateralized
            &&& o.debt.amount_scaled <= d.amount_scaled
            // the user loses the collateral flag exactly when all of it is liquidated
            &&& (coll == balance ==> o.user == Some(User { collateral_assets: u.collateral_assets & !(1u128 << cm.index), ..u }))
            &&& (coll != balance ==> o.user is None)
            // with maTokens the liquidator gains the collateral flag; with the underlying
            // asset the contract must hold enough of it
            &&& (receive_ma_token ==> {
                let l = match liquidator { Some(l) => l, None => User { collateral_assets: 0, borrowed_assets: 0 } };
                &&& bit_is_set(l.collateral_assets, cm.index) ==> o.liquidator is None
                &&& !bit_is_set(l.collateral_assets, cm.index) ==> o.liquidator == Some(User { collateral_assets: l.collateral_assets | (1u128 << cm.index), ..l })
            })
            &&& (!receive_ma_token ==> o.liquidator is None && contract_collateral_balance >= coll)
            // the collateral moves, interest is accrued on the markets touched, and the excess
            // sent is refunded
            &&& ({
                let after = spec_scaled_debt_amount(total_debt - repay, dm, timestamp as int).unwrap();
                let scaled_coll = spec_scaled_liquidity_amount(coll, cm, timestamp as int).unwrap();
                let markets = spec_liquidation_markets(cm, dm, same, receive_ma_token,
                    dm.debt_total_scaled - (d.amount_scaled - after), coll, sent_debt_asset_amount - repay,
                    contract_collateral_balance, contract_debt_balance, timestamp, *rewards_collector,
                    *collateral_denom, *debt_denom);
                let l = match liquidator { Some(l) => l, None => User { collateral_assets: 0, borrowed_assets: 0 } };
                &&& o.collateral_market == markets.0
                &&& o.debt_market == markets.1
                &&& o.messages@ == collateral_transfer_msgs(cm, *user_addr, *liquidator_addr, *collateral_denom, coll,
                        scaled_coll, receive_ma_token) + markets.2
                    + (if o.refund_amount > 0 {
                        seq![RedBankMsg::SendAsset { recipient: *liquidator_addr, denom: *debt_denom, amount: o.refund_amount }]
                    } else {
                        Seq::empty()
                    })
                &&& o.events@ == (if receive_ma_token && !bit_is_set(l.collateral_assets, cm.index) {
                        seq![RedBankEvent::CollateralPositionChanged { denom: *collateral_denom, enabled: true, user: *liquidator_addr }]
                    } else {
                        Seq::empty()
                    }) + (if coll == balance {
                        seq![RedBankEvent::CollateralPositionChanged { denom: *collateral_denom, enabled: false, user: *user_addr }]
                    } else {
                        Seq::empty()
                    }) + markets.3
            })
            // the market's total debt falls by what the user's debt fell
            &&& o.debt_market.debt_total_scaled == dm.debt_total_scaled - (d.amount_scaled - o.debt.amount_scaled)
        },
{
    // 1. Validate liquidation
    // If user (contract) has a positive uncollateralized limit then the user cannot be liquidated
    match limit {
        Some(l) => {
            if l != 0 {
                return Err(ContractError::CannotLiquidateWhenPositiveUncollateralizedLoanLimit);
            }
        },
        None => {},
    }
    let mut user = match user {
        Some(u) => u,
        None => return Err(ContractError::NotFound(Record::User)),
    };
    let collateral_market = match collateral_market {
        Some(m) => m,
        None => return Err(ContractError::NotFound(Record::Market)),
    };
    let using_collateral_asset_as_collateral = match get_bit(user.collateral_assets, collateral_market.index) {
        Ok(b) => b,
        Err(e) => return Err(ContractError::Bit(e)),
    };
    if !using_collateral_asset_as_collateral {
        return Err(ContractError::CannotLiquidateWhenCollateralUnset { denom: collateral_denom.clone() });
    }

    // check if user has available collateral in specified collateral asset to be liquidated
    let user_collateral_balance = get_underlying_liquidity_amount(balance_scaled, &collateral_market, timestamp)?;
    if user_collateral_balance == 0 {
        return Err(ContractError::CannotLiquidateWhenNoCollateralBalance);
    }
    // check if user has outstanding debt in the deposited asset that needs to be repayed
    let mut user_debt = match debt {
        Some(d) => d,
        None => return Err(ContractError::NotFound(Record::Debt)),
    };
    if user_debt.amount_scaled == 0 {
        return Err(ContractError::CannotLiquidateWhenNoDebtBalance);
    }

    // 2. Compute health factor
    let positions = get_user_positions(&user, snapshots, timestamp)?;
    let liquidatable = assert_liquidatable(&positions)?;
    if !liquidatable {
        return Err(ContractError::CannotLiquidateHealthyPosition);
    }

    let collateral_and_debt_are_the_same_asset = *debt_denom == *collateral_denom;
    let debt_market = if !collateral_and_debt_are_the_same_asset {
        match debt_market {
            Some(m) => m,
            None => return Err(ContractError::NotFound(Record::Market)),
        }
    } else {
        collateral_market.copy()
    };

    // 3. Compute debt to repay and collateral to liquidate
    let collateral_price = match price_of(&positions, collateral_denom) {
        Some(p) => p,
        None => return Err(ContractError::CannotLiquidateWhenNoCollateralBalance),
    };
    let debt_price = match price_of(&positions, debt_denom) {
        Some(p) => p,
        None => return Err(ContractError::CannotLiquidateWhenNoDebtBalance),
    };
    let user_debt_asset_total_debt = get_underlying_debt_amount(user_debt.amount_scaled, &debt_market, timestamp)?;
    let (debt_amount_to_repay, collateral_amount_to_liquidate, refund_amount) = match liquidation_compute_amounts(
        collateral_price,
        debt_price,
        config.close_factor,
        user_collateral_balance,
        collateral_market.liquidation_bonus,
        user_debt_asset_total_debt,
        sent_debt_asset_amount,
    ) {
        Ok(v) => v,
        Err(e) => return Err(ContractError::Math(e)),
    };

    let mut messages: Vec<RedBankMsg> = Vec::new();
    let mut events: Vec<RedBankEvent> = Vec::new();

    // 4. Transfer collateral depending on whether the liquidator elects to receive ma_tokens
    // or the underlying asset
    let liquidator_to_save = if receive_ma_token {
        process_ma_token_transfer_to_liquidator(liquidator, user_addr, liquidator_addr, collateral_denom,
            &collateral_market, collateral_amount_to_liquidate, timestamp, &mut messages, &mut events)?
    } else {
        process_underlying_asset_transfer_to_liquidator(user_addr, liquidator_addr, collateral_denom,
            &collateral_market, collateral_amount_to_liquidate, contract_collateral_balance, timestamp, &mut messages)?;
        None
    };

    // if max collateral to liquidate equals the user's balance then unset collateral bit
    let mut user_to_save: Option<User> = None;
    if collateral_amount_to_liquidate == user_collateral_balance {
        match unset_bit(&mut user.collateral_assets, collateral_market.index) {
            Ok(()) => {},
            Err(e) => return Err(ContractError::Bit(e)),
        }
        user_to_save = Some(user);
        events.push(build_collateral_position_changed_event(collateral_denom, false, user_addr));
    }

    // 5. Compute and update user new debt
    if debt_amount_to_repay > user_debt_asset_total_debt {
        return Err(ContractError::Math(MathError::Overflow));
    }
    let user_debt_asset_debt_amount_after = user_debt_asset_total_debt - debt_amount_to_repay;
    let user_debt_asset_debt_amount_scaled_after = get_scaled_debt_amount(user_debt_asset_debt_amount_after, &debt_market, timestamp)?;
    // Compute delta so it can be substracted to total debt
    if user_debt_asset_debt_amount_scaled_after > user_debt.amount_scaled {
        return Err(ContractError::Math(MathError::Overflow));
    }
    let debt_amount_scaled_delta = user_debt.amount_scaled - user_debt_asset_debt_amount_scaled_after;
    user_debt.amount_scaled = user_debt_asset_debt_amount_scaled_after;
    if debt_amount_scaled_delta > debt_market.debt_total_scaled {
        return Err(ContractError::Math(MathError::Overflow));
    }
    let debt_market_debt_total_scaled_after = debt_market.debt_total_scaled - debt_amount_scaled_delta;

    // 6. Update markets depending on whether the collateral and debt markets are the same and
    // whether the liquidator receives ma_tokens (no change in liquidity) or the underlying
    // asset (changes liquidity)
    let (collateral_market_to_save, debt_market_after) = update_liquidation_markets(collateral_market, debt_market,
        collateral_and_debt_are_the_same_asset, receive_ma_token, debt_market_debt_total_scaled_after,
        collateral_amount_to_liquidate, refund_amount, contract_collateral_balance, contract_debt_balance, timestamp,
        rewards_collector, collateral_denom, debt_denom, &mut messages, &mut events)?;

    // 7. Refund sent amount in excess of actual debt amount to liquidate
    if refund_amount > 0 {
        messages.push(RedBankMsg::SendAsset { recipient: liquidator_addr.clone(), denom: debt_denom.clone(), amount: refund_amount });
    }

    Ok(LiquidateOutcome {
        collateral_market: collateral_market_to_save,
        debt_market: debt_market_after,
        user: user_to_save,
        liquidator: liquidator_to_save,
        debt: user_debt,
        debt_amount_repaid: debt_amount_to_repay,
        collateral_amount_liquidated: collateral_amount_to_liquidate,
        refund_amount,
        messages,
        events,
    })
}


/// Whether the account with the positions gathered from the snapshots is liquidatable; `None`
/// when that fails to compute.
pub open spec fn spec_disabled_health(u: User, snapshots: Seq<Option<MarketSnapshot>>, timestamp: u64) -> Option<bool> {
    match spec_user_positions(u, snapshots, timestamp as int) {
        Some(ps) => match spec_position_health(ps) {
            Some(h) => Some(h.spec_is_liquidatable()),
            None => None,
        },
        None => None,
    }
}

/// Updates a user's uncollateralized loan limit in an asset (owner only). Returns the debt
/// record to store, marked uncollateralized exactly when the new limit is positive.
///
/// `previous_limit` is the stored limit; `market` is the asset's market (read when the user
/// exists and had no limit); `debt` is the user's debt record in the asset.
pub fn update_uncollateralized_loan_limit(
    config: &Config,
    sender: &String,
    user: Option<User>,
    previous_limit: Option<u128>,
    market: Option<Market>,
    debt: Option<Debt>,
    new_limit: u128,
) -> (r: Result<Debt, ContractError>)
    ensures
        sender@ != config.owner@ ==> r == Err::<Debt, ContractError>(ContractError::Unauthorized),
        ({
            let prev: u128 = match previous_limit { Some(l) => l, None => 0 };
            let checked = user is Some && prev == 0;
            &&& (r is Ok <==> {
                &&& sender@ == config.owner@
                &&& (checked ==> market is Some && market.unwrap().index < 128
                        && !bit_is_set(user.unwrap().borrowed_assets, market.unwrap().index))
            })
            &&& (sender@ == config.owner@ && checked && market is Some && market.unwrap().index < 128
                    && bit_is_set(user.unwrap().borrowed_assets, market.unwrap().index)
                ==> r == Err::<Debt, ContractError>(ContractError::UserHasCollateralizedDebt))
        }),
        r matches Ok(d) ==> d == (match debt {
            Some(d0) => Debt { uncollateralized: new_limit != 0, ..d0 },
            None => Debt { amount_scaled: 0, uncollateralized: new_limit != 0 },
        }),
{
    // Only owner can do this
    if *sender != config.owner {
        return Err(ContractError::Unauthorized);
    }
    // Check that the user has no collateralized debt
    match user {
        Some(u) => {
            let previous: u128 = match previous_limit {
                Some(l) => l,
                None => 0,
            };
            if previous == 0 {
                let asset_market = match market {
                    Some(m) => m,
                    None => return Err(ContractError::NotFound(Record::Market)),
                };
                let is_borrowing_asset = match get_bit(u.borrowed_assets, asset_market.index) {
                    Ok(b) => b,
                    Err(e) => return Err(ContractError::Bit(e)),
                };
                if is_borrowing_asset {
                    return Err(ContractError::UserHasCollateralizedDebt);
                }
            }
        },
        None => {},
    }
    let mut d = match debt {
        Some(d) => d,
        None => Debt { amount_scaled: 0, uncollateralized: false },
    };
    // if limit == 0 then uncollateralized = false, otherwise uncollateralized = true
    d.uncollateralized = new_limit != 0;
    Ok(d)
}

/// What changing a collateral flag changes.
#[derive(Debug)]
pub struct CollateralStatusOutcome {
    /// The user's record to store, when it changed
    pub user: Option<User>,
    /// Whether the asset counted as collateral before
    pub had_collateral: bool,
    pub events: Vec<RedBankEvent>,
}

/// Update (enable / disable) the use of an asset as collateral for the sender.
///
/// `balance_scaled` is the sender's maToken balance of the asset (read when enabling);
/// `snapshots` are the sender's markets with the flag already cleared (read when disabling).
pub fn update_asset_collateral_status(
    market: Option<Market>,
    user: Option<User>,
    user_addr: &String,
    denom: &String,
    enable: bool,
    balance_scaled: u128,
    snapshots: &Vec<Option<MarketSnapshot>>,
    timestamp: u64,
) -> (r: Result<CollateralStatusOutcome, ContractError>)
    ensures
        market is None ==> r == Err::<CollateralStatusOutcome, ContractError>(ContractError::NotFound(Record::Market)),
        market matches Some(m) ==> {
            let u = match user { Some(u) => u, None => User { collateral_assets: 0, borrowed_assets: 0 } };
            let had = bit_is_set(u.collateral_assets, m.index);
            let disabled = User { collateral_assets: u.collateral_assets & !(1u128 << m.index), ..u };
            &&& (r is Ok <==> {
                &&& m.index < 128
                &&& (!had && enable ==> balance_scaled > 0)
                &&& (had && !enable ==> spec_disabled_health(disabled, snapshots@, timestamp) == Some(false))
            })
            &&& (m.index < 128 && !had && enable && balance_scaled == 0 ==> r == Err::<CollateralStatusOutcome, ContractError>(
                ContractError::UserNoCollateralBalance { user_address: *user_addr, denom: *denom }))
            &&& (m.index < 128 && had && !enable && spec_disabled_health(disabled, snapshots@, timestamp) == Some(true)
                ==> r == Err::<CollateralStatusOutcome, ContractError>(ContractError::InvalidHealthFactorAfterDisablingCollateral))
            &&& (r matches Ok(o) ==> {
                &&& o.had_collateral == had
                &&& (!had && enable ==> o.user == Some(User { collateral_assets: u.collateral_assets | (1u128 << m.index), ..u })
                        && o.events@ == seq![RedBankEvent::CollateralPositionChanged { denom: *denom, enabled: true, user: *user_addr }])
                &&& (had && !enable ==> o.user == Some(disabled)
                        && o.events@ == seq![RedBankEvent::CollateralPositionChanged { denom: *denom, enabled: false, user: *user_addr }])
                &&& (had == enable ==> o.user is None && o.events@.len() == 0)
            })
        },
{
    let collateral_market = match market {
        Some(m) => m,
        None => return Err(ContractError::NotFound(Record::Market)),
    };
    let mut user = match user {
        Some(u) => u,
        None => User::new(),
    };
    let mut events: Vec<RedBankEvent> = Vec::new();
    let has_collateral_asset = match get_bit(user.collateral_assets, collateral_market.index) {
        Ok(b) => b,
        Err(e) => return Err(ContractError::Bit(e)),
    };
    let mut user_to_save: Option<User> = None;
    if !has_collateral_asset && enable {
        if balance_scaled > 0 {
            // enable collateral asset
            match set_bit(&mut user.collateral_assets, collateral_market.index) {
                Ok(()) => {},
                Err(e) => return Err(ContractError::Bit(e)),
            }
            user_to_save = Some(user);
            events.push(build_collateral_position_changed_event(denom, true, user_addr));
        } else {
            return Err(ContractError::UserNoCollateralBalance { user_address: user_addr.clone(), denom: denom.clone() });
        }
    } else if has_collateral_asset && !enable {
        // disable collateral asset
        match unset_bit(&mut user.collateral_assets, collateral_market.index) {
            Ok(()) => {},
            Err(e) => return Err(ContractError::Bit(e)),
        }
        // check health factor after disabling collateral
        let positions = get_user_positions(&user, snapshots, timestamp)?;
        let liquidatable = assert_liquidatable(&positions)?;
        if liquidatable {
            return Err(ContractError::InvalidHealthFactorAfterDisablingCollateral);
        }
        user_to_save = Some(user);
        events.push(build_collateral_position_changed_event(denom, false, user_addr));
    }
    Ok(CollateralStatusOutcome { user: user_to_save, had_collateral: has_collateral_asset, events })
}

/// What finalizing a maToken transfer changes.
#[derive(Debug)]
pub struct TransferOutcome {
    /// The sender's record to store, when it changed
    pub from_user: Option<User>,
    /// The recipient's record to store, when it changed
    pub to_user: Option<User>,
    pub events: Vec<RedBankEvent>,
}

/// Finalizes a maToken transfer: refused when the sender's account is liquidatable; the
/// sender loses the collateral flag when the transfer empties its balance, and the recipient
/// gains it when it had none.
///
/// `market` is the market of the calling maToken; `snapshots` are the sender's markets.
pub fn finalize_liquidity_token_transfer(
    market: Option<Market>,
    from_user: Option<User>,
    to_user: Option<User>,
    from_address: &String,
    to_address: &String,
    from_previous_balance: u128,
    to_previous_balance: u128,
    amount: u128,
    denom: &String,
    snapshots: &Vec<Option<MarketSnapshot>>,
    timestamp: u64,
) -> (r: Result<TransferOutcome, ContractError>)
    ensures
        market is None ==> r == Err::<TransferOutcome, ContractError>(ContractError::NotFound(Record::Market)),
        market is Some && from_user is None ==> r == Err::<TransferOutcome, ContractError>(ContractError::NotFound(Record::User)),
        market matches Some(m) ==> (from_user matches Some(f) ==> {
            let distinct = from_address@ != to_address@;
            let t = match to_user { Some(t) => t, None => User { collateral_assets: 0, borrowed_assets: 0 } };
            let liquidatable = spec_disabled_health(f, snapshots@, timestamp);
            &&& (r is Ok <==> {
                &&& liquidatable == Some(false)
                &&& (distinct ==> from_previous_balance >= amount)
                &&& (distinct && (from_previous_balance == amount || (to_previous_balance == 0 && amount != 0)) ==> m.index < 128)
            })
            &&& (liquidatable == Some(true) ==> r == Err::<TransferOutcome, ContractError>(ContractError::CannotTransferTokenWhenInvalidHealthFactor))
            &&& (r matches Ok(o) ==> {
                let empties = distinct && from_previous_balance == amount;
                let fills = distinct && to_previous_balance == 0 && amount != 0;
                &&& (empties ==> o.from_user == Some(User { collateral_assets: f.collateral_assets & !(1u128 << m.index), ..f }))
                &&& (!empties ==> o.from_user is None)
                &&& (fills ==> o.to_user == Some(User { collateral_assets: t.collateral_assets | (1u128 << m.index), ..t }))
                &&& (!fills ==> o.to_user is None)
                &&& o.events@ == (if empties {
                        seq![RedBankEvent::CollateralPositionChanged { denom: *denom, enabled: false, user: *from_address }]
                    } else {
                        Seq::empty()
                    }) + (if fills {
                        seq![RedBankEvent::CollateralPositionChanged { denom: *denom, enabled: true, user: *to_address }]
                    } else {
                        Seq::empty()
                    })
            })
        }),
{
    let market = match market {
        Some(m) => m,
        None => return Err(ContractError::NotFound(Record::Market)),
    };
    let mut from_user = match from_user {
        Some(u) => u,
        None => return Err(ContractError::NotFound(Record::User)),
    };
    // Check user health factor is above 1
    let positions = get_user_positions(&from_user, snapshots, timestamp)?;
    let liquidatable = assert_liquidatable(&positions)?;
    if liquidatable {
        return Err(ContractError::CannotTransferTokenWhenInvalidHealthFactor);
    }
    let mut events: Vec<RedBankEvent> = Vec::new();
    let mut from_to_save: Option<User> = None;
    let mut to_to_save: Option<User> = None;
    // Update users's positions
    if *from_address != *to_address {
        if from_previous_balance < amount {
            return Err(ContractError::Math(MathError::Overflow));
        }
        if from_previous_balance - amount == 0 {
            match unset_bit(&mut from_user.collateral_assets, market.index) {
                Ok(()) => {},
                Err(e) => return Err(ContractError::Bit(e)),
            }
            from_to_save = Some(from_user);
            events.push(build_collateral_position_changed_event(denom, false, from_address));
        }
        if to_previous_balance == 0 && amount != 0 {
            let mut t = match to_user {
                Some(t) => t,
                None => User::new(),
            };
            match set_bit(&mut t.collateral_assets, market.index) {
                Ok(()) => {},
                Err(e) => return Err(ContractError::Bit(e)),
            }
            to_to_save = Some(t);
            events.push(build_collateral_position_changed_event(denom, true, to_address));
        }
    }
    Ok(TransferOutcome { from_user: from_to_save, to_user: to_to_save, events })
}

} // verus!
