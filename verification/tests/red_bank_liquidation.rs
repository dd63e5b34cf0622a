use mars_contracts::decimal::{divide_uint128_by_decimal, mul_floor, Decimal};
use mars_contracts::error::ContractError;
use mars_contracts::helpers::get_denom_amount_from_coins;
use mars_contracts::interest_rates::{
    compute_scaled_amount, get_scaled_debt_amount, get_scaled_liquidity_amount, get_underlying_debt_amount, get_underlying_liquidity_amount,
    get_updated_borrow_index, get_updated_liquidity_index, ScalingOperation, SCALING_FACTOR,
};
use mars_contracts::liquidation::liquidation_compute_amounts;
use mars_contracts::market::{Config, InterestRateModel, Market};
use mars_contracts::positions::MarketSnapshot;
use mars_contracts::red_bank::{liquidate, process_underlying_asset_transfer_to_liquidator, RedBankEvent, RedBankMsg};
use mars_contracts::state::{Debt, User};

fn s(v: &str) -> String {
    v.to_string()
}

fn dec(n: u128, d: u128) -> Decimal {
    Decimal::from_ratio(n, d).unwrap()
}

fn th_market(denom: &str, index: u32) -> Market {
    Market {
        index,
        denom: s(denom),
        ma_token_address: s(denom),
        borrow_index: Decimal::one(),
        liquidity_index: Decimal::one(),
        borrow_rate: Decimal::zero(),
        liquidity_rate: Decimal::zero(),
        max_loan_to_value: Decimal::zero(),
        reserve_factor: Decimal::zero(),
        indexes_last_updated: 0,
        debt_total_scaled: 0,
        liquidation_threshold: Decimal::one(),
        liquidation_bonus: Decimal::zero(),
        interest_rate_model: InterestRateModel {
            optimal_utilization_rate: Decimal::zero(),
            base: Decimal::zero(),
            slope_1: Decimal::zero(),
            slope_2: Decimal::zero(),
        },
        deposit_enabled: true,
        borrow_enabled: true,
        deposit_cap: u128::MAX,
    }
}

fn th_config() -> Config {
    Config { owner: s("owner"), address_provider_address: s("address_provider"), ma_token_code_id: 1, close_factor: dec(1, 2) }
}

fn snapshot(market: &Market, collateral_balance_scaled: u128, debt: Option<Debt>) -> Option<MarketSnapshot> {
    Some(MarketSnapshot {
        denom: market.denom.clone(),
        market: market.clone(),
        collateral_balance_scaled,
        debt,
        price: Decimal::one(),
    })
}

#[test]
fn tests_test_liquidation_health_factor_check() {
    check_liquidation_health_factor_check();
}

#[test]
fn test_liquidate_test_liquidation_health_factor_check() {
    check_liquidation_health_factor_check();
}

fn check_liquidation_health_factor_check() {
    let collateral_liquidation_threshold = dec(7, 10);
    let collateral_market = Market {
        max_loan_to_value: dec(5, 10),
        liquidation_threshold: collateral_liquidation_threshold,
        liquidation_bonus: dec(1, 10),
        ..th_market("collateral", 0)
    };
    let debt_market = Market {
        max_loan_to_value: dec(6, 10),
        debt_total_scaled: 20_000_000 * SCALING_FACTOR,
        ..th_market("debt", 1)
    };
    // the user has collateral and debt in the respective markets
    let user = User { collateral_assets: 1, borrowed_assets: 2 };
    let healthy_user_collateral_balance_scaled = 10_000_000 * SCALING_FACTOR;
    let healthy_user_debt = Debt {
        amount_scaled: mars_contracts::decimal::mul_floor(healthy_user_collateral_balance_scaled, collateral_liquidation_threshold)
            .unwrap(),
        uncollateralized: false,
    };
    let snapshots = vec![
        snapshot(&collateral_market, healthy_user_collateral_balance_scaled, None),
        snapshot(&debt_market, 0, Some(healthy_user_debt)),
    ];

    // perform liquidation (should fail because health factor is > 1)
    let err = liquidate(
        Some(collateral_market.clone()),
        Some(debt_market),
        Some(user),
        Some(healthy_user_debt),
        None,
        None,
        &th_config(),
        &s("healthy_user"),
        &s("liquidator"),
        &s("collateral"),
        &s("debt"),
        1_000_000,
        true,
        healthy_user_collateral_balance_scaled,
        &snapshots,
        1000000000,
        2000000000,
        &s("rc"),
        1,
    )
    .unwrap_err();
    assert_eq!(err, ContractError::CannotLiquidateHealthyPosition);
}

#[test]
fn tests_test_liquidate_if_collateral_disabled() {
    check_liquidate_if_collateral_disabled();
}

#[test]
fn test_liquidate_test_liquidate_if_collateral_disabled() {
    check_liquidate_if_collateral_disabled();
}

fn check_liquidate_if_collateral_disabled() {
    let collateral_market_1 = th_market("collateral1", 0);
    let collateral_market_2 = th_market("collateral2", 1);
    let debt_market = th_market("debt", 2);
    // the user has collateral1 as collateral and debt in the debt market
    let user = User { collateral_assets: 1, borrowed_assets: 4 };
    let snapshots = vec![snapshot(&collateral_market_1, 100, None), None, snapshot(&debt_market, 0, None)];

    // perform liquidation (should fail because collateral2 isn't set as collateral for user)
    let err = liquidate(
        Some(collateral_market_2),
        Some(debt_market),
        Some(user),
        None,
        None,
        None,
        &th_config(),
        &s("user"),
        &s("liquidator"),
        &s("collateral2"),
        &s("debt"),
        1_000_000,
        true,
        0,
        &snapshots,
        0,
        0,
        &s("rc"),
        1,
    )
    .unwrap_err();
    assert_eq!(err, ContractError::CannotLiquidateWhenCollateralUnset { denom: s("collateral2") });
}

#[test]
fn liquidation_for_the_underlying_asset() {
    let collateral_market = Market {
        max_loan_to_value: dec(5, 10),
        liquidation_threshold: dec(6, 10),
        liquidation_bonus: dec(1, 10),
        ..th_market("collateral", 0)
    };
    let debt_market = Market { debt_total_scaled: 1000 * SCALING_FACTOR, ..th_market("debt", 1) };
    let user = User { collateral_assets: 1, borrowed_assets: 2 };
    let debt = Debt { amount_scaled: 1000 * SCALING_FACTOR, uncollateralized: false };
    let balance_scaled = 1500 * SCALING_FACTOR;
    let snapshots = vec![snapshot(&collateral_market, balance_scaled, None), snapshot(&debt_market, 0, Some(debt))];

    // the user's liquidation health factor is 1500 * 0.6 / 1000 = 0.9; the close factor lets
    // half of the 1000 debt be repaid: 500 of the 600 sent, for 500 * 1.1 = 550 collateral
    let out = liquidate(
        Some(collateral_market),
        Some(debt_market),
        Some(user),
        Some(debt),
        None,
        None,
        &th_config(),
        &s("user"),
        &s("liquidator"),
        &s("collateral"),
        &s("debt"),
        600,
        false,
        balance_scaled,
        &snapshots,
        10000,
        10000,
        &s("rc"),
        1,
    )
    .unwrap();
    assert_eq!(out.debt_amount_repaid, 500);
    assert_eq!(out.collateral_amount_liquidated, 550);
    assert_eq!(out.refund_amount, 100);
    assert_eq!(out.debt.amount_scaled, 500 * SCALING_FACTOR);
    assert_eq!(out.debt_market.debt_total_scaled, 500 * SCALING_FACTOR);
    // part of the collateral stays: the user keeps the collateral flag
    assert!(out.user.is_none());
    assert!(out.liquidator.is_none());
    assert!(out.collateral_market.is_some());
    assert_eq!(out.messages.len(), 3);
    assert!(matches!(&out.messages[0],
        RedBankMsg::BurnMaToken { contract_addr, user, amount }
            if contract_addr == "collateral" && user == "user" && *amount == 550 * SCALING_FACTOR));
    assert!(matches!(&out.messages[1],
        RedBankMsg::SendAsset { recipient, denom, amount } if recipient == "liquidator" && denom == "collateral" && *amount == 550));
    assert!(matches!(&out.messages[2],
        RedBankMsg::SendAsset { recipient, denom, amount } if recipient == "liquidator" && denom == "debt" && *amount == 100));

    // taking maTokens instead moves them to the liquidator, who gets the collateral flag
    let collateral_market = Market {
        max_loan_to_value: dec(5, 10),
        liquidation_threshold: dec(6, 10),
        liquidation_bonus: dec(1, 10),
        ..th_market("collateral", 0)
    };
    let debt_market = Market { debt_total_scaled: 1000 * SCALING_FACTOR, ..th_market("debt", 1) };
    let out = liquidate(
        Some(collateral_market),
        Some(debt_market),
        Some(user),
        Some(debt),
        None,
        None,
        &th_config(),
        &s("user"),
        &s("liquidator"),
        &s("collateral"),
        &s("debt"),
        600,
        true,
        balance_scaled,
        &snapshots,
        0,
        10000,
        &s("rc"),
        1,
    )
    .unwrap();
    assert_eq!(out.liquidator, Some(User { collateral_assets: 1, borrowed_assets: 0 }));
    assert!(out.collateral_market.is_none());
    assert!(matches!(&out.messages[0],
        RedBankMsg::TransferMaTokenOnLiquidation { sender, recipient, amount, .. }
            if sender == "user" && recipient == "liquidator" && *amount == 550 * SCALING_FACTOR));
}

#[test]
fn liquidation_amounts() {
    // repayment capped by the close factor
    let (repay, collateral, refund) =
        liquidation_compute_amounts(Decimal::one(), Decimal::one(), dec(1, 2), 1500, dec(1, 10), 1000, 600).unwrap();
    assert_eq!((repay, collateral, refund), (500, 550, 100));
    // the collateral balance caps what is liquidated, and the repayment is recomputed from it
    let (repay, collateral, refund) =
        liquidation_compute_amounts(Decimal::one(), Decimal::one(), dec(1, 2), 220, dec(1, 10), 1000, 600).unwrap();
    assert_eq!((repay, collateral, refund), (200, 220, 400));
    // prices convert between the assets: collateral worth twice as much buys half as many
    let (repay, collateral, refund) =
        liquidation_compute_amounts(dec(2, 1), Decimal::one(), dec(1, 2), 10000, Decimal::zero(), 1000, 300).unwrap();
    assert_eq!((repay, collateral, refund), (300, 150, 0));
}

fn priced(market: &Market, collateral_balance_scaled: u128, debt: Option<Debt>, price: Decimal) -> Option<MarketSnapshot> {
    Some(MarketSnapshot { denom: market.denom.clone(), market: market.clone(), collateral_balance_scaled, debt, price })
}

#[test]
fn tests_test_liquidate() {
    check_liquidate();
}

#[test]
fn test_liquidate_test_liquidate() {
    check_liquidate();
}

/// Partial liquidations (maTokens, then the underlying asset with a refund) and a full one.
fn check_liquidate() {
    let available_liquidity_collateral = 1_000_000_000u128;
    let available_liquidity_debt = 2_000_000_000u128;
    let collateral_price = dec(2, 1);
    let debt_price = dec(11, 10);
    let bonus = dec(1, 10);
    let close_factor = dec(1, 2);
    let config = Config { close_factor, ..th_config() };
    let user_collateral_balance = 2_000_000u128;
    let user_debt = 3_000_000u128; // ltv = 0.75
    let first_debt_to_repay = 400_000u128;
    let first_block_time = 15_000_000u64;
    let second_debt_to_repay = 10_000_000u128;
    let second_block_time = 16_000_000u64;
    let rc = s("protocol_rewards_collector");

    let cm = Market {
        max_loan_to_value: dec(5, 10),
        liquidation_threshold: dec(6, 10),
        liquidation_bonus: bonus,
        debt_total_scaled: 800_000_000 * SCALING_FACTOR,
        borrow_rate: dec(2, 10),
        liquidity_rate: dec(2, 10),
        reserve_factor: dec(2, 100),
        ma_token_address: s("ma_collateral"),
        ..th_market("collateral", 0)
    };
    let dm = Market {
        max_loan_to_value: dec(6, 10),
        debt_total_scaled: 1_800_000_000 * SCALING_FACTOR,
        liquidity_index: dec(12, 10),
        borrow_index: dec(14, 10),
        borrow_rate: dec(2, 10),
        liquidity_rate: dec(2, 10),
        reserve_factor: dec(3, 100),
        ma_token_address: s("ma_debt"),
        ..th_market("debt", 1)
    };
    // the user has collateral and debt in the respective markets
    let user = User { collateral_assets: 1, borrowed_assets: 2 };
    let debt = Debt { amount_scaled: compute_scaled_amount(user_debt, dm.borrow_index, ScalingOperation::Debt).unwrap(), uncollateralized: false };
    let snapshots = |cm: &Market, dm: &Market, balance_scaled: u128, debt: Debt| {
        vec![priced(cm, balance_scaled, None, collateral_price), priced(dm, 0, Some(debt), debt_price)]
    };
    let run = |cm: &Market, dm: &Market, debt: Debt, sent: u128, receive_ma_token: bool, balance_scaled: u128, t: u64| {
        liquidate(
            Some(cm.clone()), Some(dm.clone()), Some(user), Some(debt), None, None, &config, &s("user"), &s("liquidator"),
            &s("collateral"), &s("debt"), sent, receive_ma_token, balance_scaled, &snapshots(cm, dm, balance_scaled, debt),
            available_liquidity_collateral, available_liquidity_debt, &rc, t,
        )
    };

    // trying to liquidate user with zero collateral balance should fail
    assert_eq!(run(&cm, &dm, debt, first_debt_to_repay, true, 0, 1).unwrap_err(), ContractError::CannotLiquidateWhenNoCollateralBalance);

    // trying to liquidate user with zero outstanding debt should fail
    let balance_scaled = user_collateral_balance * SCALING_FACTOR;
    let no_debt = Debt { amount_scaled: 0, uncollateralized: false };
    assert_eq!(run(&cm, &dm, no_debt, first_debt_to_repay, true, balance_scaled, 1).unwrap_err(), ContractError::CannotLiquidateWhenNoDebtBalance);

    // trying to liquidate without sending funds should fail
    assert_eq!(get_denom_amount_from_coins(&vec![], &s("debt")).unwrap_err(), ContractError::InvalidCoinsSent { denom: s("debt") });

    // first liquidation, receiving maTokens: 400000 of debt at 1.1 with a 10% bonus buys
    // 400000 * 1.1 * 1.1 / 2 = 242000 of collateral
    let out = run(&cm, &dm, debt, first_debt_to_repay, true, balance_scaled, first_block_time).unwrap();
    assert_eq!(out.debt_amount_repaid, first_debt_to_repay);
    assert_eq!(out.collateral_amount_liquidated, 242_000);
    assert_eq!(out.refund_amount, 0);
    let liquidated_scaled = get_scaled_liquidity_amount(242_000, &cm, first_block_time).unwrap();
    assert!(out.messages.iter().any(|m| matches!(m,
        RedBankMsg::TransferMaTokenOnLiquidation { contract_addr, sender, recipient, amount }
            if contract_addr == "ma_collateral" && sender == "user" && recipient == "liquidator" && *amount == liquidated_scaled)));
    // the maTokens move, the debt market's accrued interest is minted to the collector, and
    // nothing is sent back
    assert_eq!(out.messages.len(), 2);
    assert!(matches!(&out.messages[1], RedBankMsg::MintMaToken { contract_addr, recipient, .. }
        if contract_addr == "ma_debt" && recipient == "protocol_rewards_collector"));
    assert!(!out.messages.iter().any(|m| matches!(m, RedBankMsg::SendAsset { .. })));
    // the liquidator now has the collateral enabled
    assert_eq!(out.liquidator, Some(User { collateral_assets: 1, borrowed_assets: 0 }));
    assert!(matches!(&out.events[0],
        RedBankEvent::CollateralPositionChanged { denom, enabled: true, user } if denom == "collateral" && user == "liquidator"));
    assert!(matches!(&out.events[1], RedBankEvent::InterestsUpdated { denom, .. } if denom == "debt"));
    // the user keeps collateral, the collateral market is untouched
    assert!(out.user.is_none());
    assert!(out.collateral_market.is_none());
    // the user's and the market's debt decrease by the repaid amount
    assert_eq!(out.debt_market.borrow_index, get_updated_borrow_index(&dm, first_block_time).unwrap());
    let total_debt = get_underlying_debt_amount(debt.amount_scaled, &dm, first_block_time).unwrap();
    let debt_scaled_after = get_scaled_debt_amount(total_debt - first_debt_to_repay, &dm, first_block_time).unwrap();
    assert_eq!(out.debt.amount_scaled, debt_scaled_after);
    let less_debt_scaled = debt.amount_scaled - debt_scaled_after;
    assert_eq!(out.debt_market.debt_total_scaled, 1_800_000_000 * SCALING_FACTOR - less_debt_scaled);

    // second liquidation, sending an excess amount (refunded) and receiving the underlying
    // collateral: half the debt is repaid
    let dm = out.debt_market;
    let debt = out.debt;
    let balance_scaled = balance_scaled - liquidated_scaled;
    let out = run(&cm, &dm, debt, second_debt_to_repay, false, balance_scaled, second_block_time).unwrap();
    let total_debt = get_underlying_debt_amount(debt.amount_scaled, &dm, second_block_time).unwrap();
    let expected_less_debt = mul_floor(total_debt, close_factor).unwrap();
    let expected_refund_amount = second_debt_to_repay - expected_less_debt;
    let expected_collateral =
        divide_uint128_by_decimal(mul_floor(mul_floor(expected_less_debt, debt_price).unwrap(), dec(11, 10)).unwrap(), collateral_price).unwrap();
    assert_eq!(out.debt_amount_repaid, expected_less_debt);
    assert_eq!(out.refund_amount, expected_refund_amount);
    assert_eq!(out.collateral_amount_liquidated, expected_collateral);
    let burnt = get_scaled_liquidity_amount(expected_collateral, &cm, second_block_time).unwrap();
    assert!(out.messages.iter().any(|m| matches!(m,
        RedBankMsg::BurnMaToken { contract_addr, user, amount } if contract_addr == "ma_collateral" && user == "user" && *amount == burnt)));
    assert!(out.messages.iter().any(|m| matches!(m,
        RedBankMsg::SendAsset { recipient, denom, amount } if recipient == "liquidator" && denom == "collateral" && *amount == expected_collateral)));
    assert!(matches!(out.messages.last().unwrap(),
        RedBankMsg::SendAsset { recipient, denom, amount } if recipient == "liquidator" && denom == "debt" && *amount == expected_refund_amount));
    // burn, send of the collateral, the collateral market's reward mint (the debt market's
    // rate fell to zero at the first liquidation, so it accrues nothing), then the refund
    assert_eq!(out.messages.len(), 4);
    assert!(matches!(&out.messages[2], RedBankMsg::MintMaToken { contract_addr, .. } if contract_addr == "ma_collateral"));
    assert_eq!(out.events.len(), 2);
    assert!(matches!(&out.events[0], RedBankEvent::InterestsUpdated { denom, .. } if denom == "collateral"));
    assert!(matches!(&out.events[1], RedBankEvent::InterestsUpdated { denom, .. } if denom == "debt"));
    // the collateral market accrues interest and loses the liquidity sent
    let collateral_market_after = out.collateral_market.unwrap();
    assert_eq!(collateral_market_after.indexes_last_updated, second_block_time);
    assert_eq!(collateral_market_after.liquidity_index, get_updated_liquidity_index(&cm, second_block_time).unwrap());
    let debt_scaled_after = get_scaled_debt_amount(total_debt - expected_less_debt, &dm, second_block_time).unwrap();
    assert_eq!(out.debt.amount_scaled, debt_scaled_after);
    assert_eq!(out.debt_market.debt_total_scaled, dm.debt_total_scaled - (debt.amount_scaled - debt_scaled_after));
    // the user still has collateral and debt
    assert!(out.user.is_none());

    // full liquidation: the sent amount buys more than the user's whole collateral, which is
    // then liquidated, and the user stops using the asset as collateral
    let cm = collateral_market_after;
    let dm = out.debt_market;
    let balance_scaled = 100 * SCALING_FACTOR;
    let debt = Debt { amount_scaled: 400 * SCALING_FACTOR, uncollateralized: false };
    let debt_to_repay = 300u128;
    let out = run(&cm, &dm, debt, debt_to_repay, false, balance_scaled, second_block_time).unwrap();
    let balance = get_underlying_liquidity_amount(balance_scaled, &cm, second_block_time).unwrap();
    let expected_less_debt = divide_uint128_by_decimal(
        divide_uint128_by_decimal(mul_floor(balance, collateral_price).unwrap(), debt_price).unwrap(),
        dec(11, 10),
    )
    .unwrap();
    assert_eq!(out.collateral_amount_liquidated, balance);
    assert_eq!(out.debt_amount_repaid, expected_less_debt);
    assert_eq!(out.refund_amount, debt_to_repay - expected_less_debt);
    assert_eq!(out.user, Some(User { collateral_assets: 0, borrowed_assets: 2 }));
    assert!(out.events.iter().any(|e| matches!(e,
        RedBankEvent::CollateralPositionChanged { denom, enabled: false, user } if denom == "collateral" && user == "user")));
}

#[test]
fn tests_test_liquidate_with_same_asset_for_debt_and_collateral() {
    check_liquidate_with_same_asset_for_debt_and_collateral();
}

#[test]
fn test_liquidate_test_liquidate_with_same_asset_for_debt_and_collateral() {
    check_liquidate_with_same_asset_for_debt_and_collateral();
}

/// Liquidations where the collateral and the debt are the same asset, partial and overpaid,
/// receiving maTokens or the underlying asset.
fn check_liquidate_with_same_asset_for_debt_and_collateral() {
    let available_liquidity = 1_000_000_000u128;
    let price = dec(2, 1);
    let close_factor = dec(1, 2);
    let config = Config { close_factor, ..th_config() };
    let initial_user_debt_balance = 3_000_000u128;
    let user_collateral_balance = 2_000_000u128;
    let block_time = 15_000_000u64;
    let market = Market {
        max_loan_to_value: dec(5, 10),
        liquidation_threshold: dec(6, 10),
        liquidation_bonus: dec(1, 10),
        debt_total_scaled: 500_000_000 * SCALING_FACTOR,
        borrow_rate: dec(2, 10),
        liquidity_rate: dec(2, 10),
        reserve_factor: dec(2, 100),
        interest_rate_model: InterestRateModel {
            optimal_utilization_rate: dec(80, 100),
            base: dec(0, 100),
            slope_1: dec(10, 100),
            slope_2: Decimal::one(),
        },
        ma_token_address: s("ma_the_asset"),
        ..th_market("the_asset", 0)
    };
    // the user uses the asset as collateral and borrows it
    let user = User { collateral_assets: 1, borrowed_assets: 1 };
    let debt = Debt {
        amount_scaled: compute_scaled_amount(initial_user_debt_balance, market.borrow_index, ScalingOperation::Debt).unwrap(),
        uncollateralized: false,
    };
    let balance_scaled = user_collateral_balance * SCALING_FACTOR;
    let snapshots = vec![priced(&market, balance_scaled, Some(debt), price)];
    let run = |sent: u128, receive_ma_token: bool| {
        liquidate(
            Some(market.clone()), None, Some(user), Some(debt), None, None, &config, &s("user"), &s("liquidator"),
            &s("the_asset"), &s("the_asset"), sent, receive_ma_token, balance_scaled, &snapshots,
            available_liquidity, available_liquidity, &s("protocol_rewards_collector"), block_time,
        )
    };
    let total_debt = get_underlying_debt_amount(debt.amount_scaled, &market, block_time).unwrap();

    for receive_ma_token in [true, false] {
        // partial liquidation: 400000 * 2 * 1.1 / 2 = 440000 of collateral
        let debt_to_repay = 400_000u128;
        let out = run(debt_to_repay, receive_ma_token).unwrap();
        assert_eq!(out.debt_amount_repaid, debt_to_repay);
        assert_eq!(out.collateral_amount_liquidated, 440_000);
        assert_eq!(out.refund_amount, 0);
        // one market, accrued once
        assert!(out.collateral_market.is_none());
        assert_eq!(out.debt_market.borrow_index, get_updated_borrow_index(&market, block_time).unwrap());
        let debt_scaled_after = get_scaled_debt_amount(total_debt - debt_to_repay, &market, block_time).unwrap();
        assert_eq!(out.debt.amount_scaled, debt_scaled_after);
        assert_eq!(out.debt_market.debt_total_scaled, market.debt_total_scaled - (debt.amount_scaled - debt_scaled_after));
        let collateral_scaled = get_scaled_liquidity_amount(440_000, &market, block_time).unwrap();
        if receive_ma_token {
            assert!(out.messages.iter().any(|m| matches!(m,
                RedBankMsg::TransferMaTokenOnLiquidation { sender, recipient, amount, .. }
                    if sender == "user" && recipient == "liquidator" && *amount == collateral_scaled)));
        } else {
            assert!(out.messages.iter().any(|m| matches!(m,
                RedBankMsg::BurnMaToken { user, amount, .. } if user == "user" && *amount == collateral_scaled)));
            assert!(out.messages.iter().any(|m| matches!(m,
                RedBankMsg::SendAsset { recipient, denom, amount } if recipient == "liquidator" && denom == "the_asset" && *amount == 440_000)));
        }

        // overpaid liquidation: the whole debt is sent, half of it is repaid and the rest refunded
        let debt_to_repay = total_debt;
        let expected_less_debt = mul_floor(total_debt, close_factor).unwrap();
        let expected_refund_amount = debt_to_repay - expected_less_debt;
        let out = run(debt_to_repay, receive_ma_token).unwrap();
        assert_eq!(out.debt_amount_repaid, expected_less_debt);
        assert_eq!(out.refund_amount, expected_refund_amount);
        let expected_collateral =
            divide_uint128_by_decimal(mul_floor(mul_floor(expected_less_debt, price).unwrap(), dec(11, 10)).unwrap(), price).unwrap();
        assert_eq!(out.collateral_amount_liquidated, expected_collateral);
        assert!(matches!(out.messages.last().unwrap(),
            RedBankMsg::SendAsset { recipient, denom, amount } if recipient == "liquidator" && denom == "the_asset" && *amount == expected_refund_amount));
    }
}

#[test]
fn test_underlying_asset_balance_check_when_transfer_to_liquidator() {
    let time = 1_571_797_419u64;
    for (denom, liquidity, liquidity_index, borrow_index) in
        [("native_collateral", 4510000u128, dec(2, 1), dec(4, 1)), ("cw20_collateral", 6510000u128, dec(8, 1), dec(6, 1))]
    {
        // indices changed in order to detect that there is no scaling on the asset balance
        let market = Market { liquidity_index, borrow_index, ..th_market(denom, 0) };

        // trying to transfer more underlying asset than available should fail
        let mut messages = Vec::new();
        let err = process_underlying_asset_transfer_to_liquidator(
            &s("user"), &s("liquidator"), &s(denom), &market, liquidity + 1, liquidity, time, &mut messages,
        )
        .unwrap_err();
        assert_eq!(err, ContractError::CannotLiquidateWhenNotEnoughCollateral);
        assert!(messages.is_empty());

        // trying to transfer less underlying asset than available should pass
        process_underlying_asset_transfer_to_liquidator(
            &s("user"), &s("liquidator"), &s(denom), &market, liquidity - 1, liquidity, time, &mut messages,
        )
        .unwrap();
        assert_eq!(messages.len(), 2);
        assert!(matches!(&messages[1],
            RedBankMsg::SendAsset { recipient, amount, .. } if recipient == "liquidator" && *amount == liquidity - 1));
    }
}
