use mars_contracts::admin::{
    init_asset, update_asset, init_asset_token_callback, instantiate, update_config, CreateOrUpdateConfig, InitOrUpdateAssetParams,
};
use mars_contracts::bits::{get_bit, set_bit};
use mars_contracts::decimal::Decimal;
use mars_contracts::error::{ContractError, Record};
use mars_contracts::helpers::{get_denom_amount_from_coins, Coin};
use mars_contracts::interest_rates::{compute_underlying_amount, get_scaled_liquidity_amount, SCALING_FACTOR};
use mars_contracts::positions::MarketSnapshot;
use mars_contracts::market::{Config, InterestRateModel, Market, ParamName, Predicate, ValidationError};
use mars_contracts::red_bank::{deposit, withdraw, RedBankEvent, RedBankMsg};
use mars_contracts::state::{Debt, GlobalState, User};

fn s(v: &str) -> String {
    v.to_string()
}

fn dec(n: u128, d: u128) -> Decimal {
    Decimal::from_ratio(n, d).unwrap()
}

fn zero_model() -> InterestRateModel {
    InterestRateModel {
        optimal_utilization_rate: Decimal::zero(),
        base: Decimal::zero(),
        slope_1: Decimal::zero(),
        slope_2: Decimal::zero(),
    }
}

/// A market with neutral parameters, to be adjusted by each test.
fn th_market(denom: &str) -> Market {
    Market {
        index: 0,
        denom: s(denom),
        ma_token_address: s("matoken"),
        borrow_index: Decimal::one(),
        liquidity_index: Decimal::one(),
        borrow_rate: Decimal::zero(),
        liquidity_rate: Decimal::zero(),
        max_loan_to_value: Decimal::zero(),
        reserve_factor: Decimal::zero(),
        indexes_last_updated: 0,
        debt_total_scaled: 0,
        liquidation_threshold: Decimal::one(),
        liquidation_bonus: Decimal::zero(),
        interest_rate_model: zero_model(),
        deposit_enabled: true,
        borrow_enabled: true,
        deposit_cap: u128::MAX,
    }
}

fn th_config() -> Config {
    Config {
        owner: s("owner"),
        address_provider_address: s("address_provider"),
        ma_token_code_id: 1,
        close_factor: dec(1, 2),
    }
}

#[test]
fn test_admin_test_proper_initialization() {
    // Config with base params valid (just update the rest)
    let base_config = CreateOrUpdateConfig {
        owner: Some(s("owner")),
        address_provider_address: Some(s("address_provider")),
        ma_token_code_id: Some(10),
        close_factor: Some(dec(1, 2)),
    };

    // init config with empty params
    let empty_config = CreateOrUpdateConfig {
        owner: None,
        address_provider_address: None,
        ma_token_code_id: None,
        close_factor: None,
    };
    assert_eq!(instantiate(empty_config).unwrap_err(), ContractError::InstantiateParamsUnavailable);

    // init config with close_factor greater than 1
    let close_factor = dec(13, 10);
    let config = CreateOrUpdateConfig { close_factor: Some(close_factor), ..base_config.clone() };
    assert_eq!(
        instantiate(config).unwrap_err(),
        ContractError::Validation(ValidationError::InvalidParam {
            param_name: ParamName::CloseFactor,
            invalid_value: close_factor,
            predicate: Predicate::LeOne,
        })
    );

    // init config with valid params
    let (config, global_state) = instantiate(base_config).unwrap();
    assert_eq!(config.owner, "owner");
    assert_eq!(config.address_provider_address, "address_provider");
    assert_eq!(config.ma_token_code_id, 10);
    assert_eq!(config.close_factor, dec(1, 2));
    assert_eq!(global_state.market_count, 0);
}

#[test]
fn test_admin_test_update_config() {
    let config = th_config();
    let new_config = CreateOrUpdateConfig {
        owner: Some(s("new_owner")),
        address_provider_address: Some(s("new_address_provider")),
        ma_token_code_id: Some(20),
        close_factor: Some(dec(4, 10)),
    };

    // *
    // non owner is not authorized
    // *
    let err = update_config(th_config(), &s("somebody"), new_config.clone()).unwrap_err();
    assert_eq!(err, ContractError::Unauthorized);

    // *
    // update config with close_factor greater than 1
    // *
    let close_factor = dec(13, 10);
    let bad = CreateOrUpdateConfig { close_factor: Some(close_factor), ..new_config.clone() };
    assert_eq!(
        update_config(th_config(), &s("owner"), bad).unwrap_err(),
        ContractError::Validation(ValidationError::InvalidParam {
            param_name: ParamName::CloseFactor,
            invalid_value: close_factor,
            predicate: Predicate::LeOne,
        })
    );

    // *
    // update config with all new params
    // *
    let updated = update_config(config, &s("owner"), new_config).unwrap();
    assert_eq!(updated.owner, "new_owner");
    assert_eq!(updated.address_provider_address, "new_address_provider");
    assert_eq!(updated.ma_token_code_id, 20);
    assert_eq!(updated.close_factor, dec(4, 10));
}

fn th_asset_params() -> InitOrUpdateAssetParams {
    InitOrUpdateAssetParams {
        initial_borrow_rate: Some(dec(20, 100)),
        max_loan_to_value: Some(dec(50, 100)),
        reserve_factor: Some(dec(1, 100)),
        liquidation_threshold: Some(dec(80, 100)),
        liquidation_bonus: Some(dec(10, 100)),
        interest_rate_model: Some(InterestRateModel {
            optimal_utilization_rate: dec(80, 100),
            base: Decimal::zero(),
            slope_1: dec(7, 100),
            slope_2: dec(45, 100),
        }),
        deposit_enabled: Some(true),
        borrow_enabled: Some(true),
        deposit_cap: None,
    }
}

#[test]
fn tests_test_init_asset() {
    let config = th_config();
    let global_state = GlobalState { market_count: 0 };

    // non owner is not authorized
    let err = init_asset(&config, &s("somebody"), Some(global_state), None, &s("someasset"), th_asset_params(), None, 1)
        .unwrap_err();
    assert_eq!(err, ContractError::Unauthorized);

    // init asset with empty params
    let empty = InitOrUpdateAssetParams {
        initial_borrow_rate: None,
        max_loan_to_value: None,
        reserve_factor: None,
        liquidation_threshold: None,
        liquidation_bonus: None,
        interest_rate_model: None,
        deposit_enabled: None,
        borrow_enabled: None,
        deposit_cap: None,
    };
    let err = init_asset(&config, &s("owner"), Some(global_state), None, &s("someasset"), empty, None, 1).unwrap_err();
    assert_eq!(err, ContractError::InstantiateParamsUnavailable);

    // init asset with max_loan_to_value greater than 1
    let invalid = dec(11, 10);
    let params = InitOrUpdateAssetParams { max_loan_to_value: Some(invalid), ..th_asset_params() };
    let err = init_asset(&config, &s("owner"), Some(global_state), None, &s("someasset"), params, None, 1).unwrap_err();
    assert_eq!(
        err,
        ContractError::Validation(ValidationError::InvalidParam {
            param_name: ParamName::MaxLoanToValue,
            invalid_value: invalid,
            predicate: Predicate::LeOne,
        })
    );

    // init asset where LTV >= liquidity threshold
    let params = InitOrUpdateAssetParams {
        max_loan_to_value: Some(dec(5, 10)),
        liquidation_threshold: Some(dec(5, 10)),
        ..th_asset_params()
    };
    let err = init_asset(&config, &s("owner"), Some(global_state), None, &s("someasset"), params, None, 1).unwrap_err();
    assert_eq!(
        err,
        ContractError::Validation(ValidationError::InvalidParam {
            param_name: ParamName::LiquidationThreshold,
            invalid_value: dec(5, 10),
            predicate: Predicate::GtMaxLtv(dec(5, 10)),
        })
    );

    // owner is authorized
    let out = init_asset(&config, &s("owner"), Some(global_state), None, &s("someasset"), th_asset_params(), None, 1).unwrap();
    assert_eq!(out.market.index, 0);
    assert_eq!(out.market.denom, "someasset");
    assert_eq!(out.market.liquidity_index, Decimal::one());
    assert_eq!(out.market.borrow_index, Decimal::one());
    assert_eq!(out.market.borrow_rate, dec(20, 100));
    assert_eq!(out.market.max_loan_to_value, dec(50, 100));
    assert_eq!(out.market.debt_total_scaled, 0);
    assert_eq!(out.global_state.market_count, 1);
    assert_eq!(out.symbol, "someasset");
    assert_eq!(out.ma_token.code_id, 1);
    assert_eq!(out.ma_token.name, "Mars someasset Liquidity Token");
    assert_eq!(out.ma_token.symbol, "masomeasset");
    assert_eq!(out.ma_token.label, "masomeasset");
    assert_eq!(out.ma_token.decimals, 6);
    assert_eq!(out.ma_token.project, "Mars Protocol");
    assert_eq!(out.ma_token.description, "Interest earning token representing deposits for someasset");

    // cannot initialize an asset twice
    let err = init_asset(&config, &s("owner"), Some(out.global_state), Some(out.market), &s("someasset"), th_asset_params(), None, 1)
        .unwrap_err();
    assert_eq!(err, ContractError::AssetAlreadyInitialized);
}

#[test]
fn test_init_asset_with_msg_symbol() {
    let config = th_config();
    let out = init_asset(
        &config,
        &s("owner"),
        Some(GlobalState { market_count: 0 }),
        None,
        &s("someasset"),
        th_asset_params(),
        Some(s("COIN")),
        1,
    )
    .unwrap();
    assert_eq!(out.symbol, "COIN");
    assert_eq!(out.ma_token.name, "Mars COIN Liquidity Token");
    assert_eq!(out.ma_token.symbol, "maCOIN");
    assert_eq!(out.ma_token.label, "maCOIN");
    assert_eq!(out.ma_token.description, "Interest earning token representing deposits for COIN");
}

#[test]
fn test_init_asset_callback_cannot_be_called_on_its_own() {
    let err = init_asset_token_callback(None, &s("mtokencontract")).unwrap_err();
    assert_eq!(err, ContractError::NotFound(Record::Market));
}

#[test]
fn tests_test_deposit_native_asset() {
    check_deposit_native_asset();
}

#[test]
fn test_deposit_test_deposit_native_asset() {
    check_deposit_native_asset();
}

/// A deposit accrues interest, mints maTokens at the new liquidity index and marks the asset
/// as collateral; funds other than one coin of the asset are refused.
fn check_deposit_native_asset() {
    let initial_liquidity = 10000000u128;
    let market = Market {
        liquidity_index: dec(11, 10),
        max_loan_to_value: Decimal::one(),
        borrow_index: Decimal::one(),
        borrow_rate: dec(10, 100),
        liquidity_rate: dec(10, 100),
        reserve_factor: dec(1, 10),
        debt_total_scaled: 10_000_000 * SCALING_FACTOR,
        indexes_last_updated: 10000000,
        ..th_market("somecoin")
    };
    let deposit_amount = 110000u128;
    let out = deposit(
        Some(market),
        None,
        &s("depositor"),
        &s("somecoin"),
        deposit_amount,
        0,
        initial_liquidity,
        &s("protocol_rewards_collector"),
        10000100,
    )
    .unwrap();

    // indices after 100 seconds; the 3 units of interest times the 10% reserve factor round
    // down to no protocol rewards
    assert_eq!(out.market.borrow_index, Decimal::raw(1000000317097919837));
    assert_eq!(out.market.liquidity_index, Decimal::raw(1100000348807711820));
    assert_eq!(out.market.borrow_rate, Decimal::zero());
    assert_eq!(out.market.liquidity_rate, Decimal::zero());
    assert_eq!(out.market.indexes_last_updated, 10000100);

    // mints coin_amount/liquidity_index
    let expected_mint_amount = 99999968290u128;
    assert_eq!(out.mint_amount, expected_mint_amount);
    assert_eq!(out.messages.len(), 1);
    assert!(matches!(&out.messages[0],
        RedBankMsg::MintMaToken { contract_addr, recipient, amount }
            if contract_addr == "matoken" && recipient == "depositor" && *amount == expected_mint_amount));

    assert_eq!(out.events.len(), 2);
    assert!(matches!(&out.events[0],
        RedBankEvent::CollateralPositionChanged { denom, enabled: true, user } if denom == "somecoin" && user == "depositor"));
    assert!(matches!(&out.events[1],
        RedBankEvent::InterestsUpdated { denom, borrow_index, liquidity_index, borrow_rate, liquidity_rate }
            if denom == "somecoin" && *borrow_index == out.market.borrow_index && *liquidity_index == out.market.liquidity_index
            && *borrow_rate == Decimal::zero() && *liquidity_rate == Decimal::zero()));

    // the depositor now uses the asset as collateral
    let user = out.user.unwrap();
    assert!(get_bit(user.collateral_assets, 0).unwrap());

    // send many native coins
    let funds = vec![Coin { denom: s("somecoin1"), amount: 100 }, Coin { denom: s("somecoin2"), amount: 200 }];
    let err = get_denom_amount_from_coins(&funds, &s("somecoin2")).unwrap_err();
    assert_eq!(err, ContractError::InvalidCoinsSent { denom: s("somecoin2") });

    // empty deposit fails
    let err = get_denom_amount_from_coins(&vec![], &s("somecoin")).unwrap_err();
    assert_eq!(err, ContractError::InvalidCoinsSent { denom: s("somecoin") });
    assert_eq!(get_denom_amount_from_coins(&vec![Coin { denom: s("somecoin"), amount: deposit_amount }], &s("somecoin")), Ok(deposit_amount));
}

#[test]
fn tests_test_cannot_deposit_if_no_market() {
    check_cannot_deposit_if_no_market();
}

#[test]
fn test_deposit_test_cannot_deposit_if_no_market() {
    check_cannot_deposit_if_no_market();
}

fn check_cannot_deposit_if_no_market() {
    let err = deposit(None, None, &s("depositer"), &s("somecoin"), 110000, 0, 0, &s("rc"), 1).unwrap_err();
    assert_eq!(err, ContractError::NotFound(Record::Market));
}

#[test]
fn tests_test_cannot_deposit_if_market_not_enabled() {
    check_cannot_deposit_if_market_not_enabled();
}

#[test]
fn test_deposit_test_cannot_deposit_if_market_not_enabled() {
    check_cannot_deposit_if_market_not_enabled();
}

fn check_cannot_deposit_if_market_not_enabled() {
    let market = Market { deposit_enabled: false, ..th_market("somecoin") };
    let err = deposit(Some(market), None, &s("depositor"), &s("somecoin"), 110000, 0, 0, &s("rc"), 1).unwrap_err();
    assert_eq!(err, ContractError::DepositNotEnabled { denom: s("somecoin") });
}

#[test]
fn tests_test_deposit_on_behalf_of() {
    check_deposit_on_behalf_of();
}

#[test]
fn test_deposit_test_deposit_on_behalf_of() {
    check_deposit_on_behalf_of();
}

fn check_deposit_on_behalf_of() {
    let initial_liquidity = 10000000u128;
    let market = th_market("somecoin");
    let deposit_amount = 110000u128;
    let out = deposit(
        Some(market),
        None,
        &s("another_user"),
        &s("somecoin"),
        deposit_amount,
        0,
        initial_liquidity,
        &s("rc"),
        1,
    )
    .unwrap();
    // 'another_user' should have collateral bit set
    assert!(get_bit(out.user.unwrap().collateral_assets, 0).unwrap());
    // recipient should be `another_user`
    let expected_mint_amount = deposit_amount * SCALING_FACTOR;
    assert!(matches!(&out.messages[0],
        RedBankMsg::MintMaToken { recipient, amount, .. } if recipient == "another_user" && *amount == expected_mint_amount));
}

#[test]
fn deposit_errors() {
    // a deposit over the cap
    let market = Market { deposit_cap: 1000, ..th_market("somecoin") };
    let err = deposit(Some(market), None, &s("u"), &s("somecoin"), 1001, 0, 0, &s("rc"), 1).unwrap_err();
    assert_eq!(err, ContractError::DepositCapExceeded { denom: s("somecoin") });
    // a zero deposit
    let err = deposit(Some(th_market("somecoin")), None, &s("u"), &s("somecoin"), 0, 0, 0, &s("rc"), 1).unwrap_err();
    assert_eq!(err, ContractError::InvalidDepositAmount { denom: s("somecoin") });
    // a user already depositing gets no event and no new record
    let user = User { collateral_assets: 1, borrowed_assets: 0 };
    let out = deposit(Some(th_market("somecoin")), Some(user), &s("u"), &s("somecoin"), 5, 0, 5, &s("rc"), 1).unwrap();
    assert!(out.user.is_none());
    assert_eq!(out.events.len(), 1);
}

#[test]
fn test_withdraw_native() {
    // Withdraw native token
    let initial_available_liquidity = 12000000u128;
    let market = Market {
        liquidity_index: dec(15, 10),
        borrow_index: dec(2, 1),
        borrow_rate: dec(20, 100),
        liquidity_rate: dec(10, 100),
        reserve_factor: dec(1, 10),
        debt_total_scaled: 10_000_000 * SCALING_FACTOR,
        indexes_last_updated: 10000000,
        ..th_market("somecoin")
    };
    let withdraw_amount = 20000u128;
    let seconds_elapsed = 2000u64;
    let initial_deposit_amount_scaled = 2_000_000 * SCALING_FACTOR;

    let out = withdraw(
        Some(market),
        Some(User::new()),
        &s("withdrawer"),
        &s("somecoin"),
        Some(withdraw_amount),
        &s("withdrawer"),
        initial_deposit_amount_scaled,
        &vec![],
        initial_available_liquidity,
        &s("protocol_rewards_collector"),
        10000000 + seconds_elapsed,
    )
    .unwrap();

    // indices after 2000 seconds, and the protocol's share of the 25 units of interest
    assert_eq!(out.market.borrow_index, Decimal::raw(2000025367833587010));
    assert_eq!(out.market.liquidity_index, Decimal::raw(1500009512937595128));
    assert_eq!(out.market.borrow_rate, Decimal::zero());
    assert_eq!(out.market.liquidity_rate, Decimal::zero());

    // the deposit is worth 3000019; 2980019 of it stays, which takes 13333266025 scaled units less
    let expected_burn_amount = 13333266025u128;
    assert_eq!(out.withdraw_amount, withdraw_amount);
    assert_eq!(out.burn_amount, expected_burn_amount);
    assert_eq!(out.messages.len(), 3);
    assert!(matches!(&out.messages[0],
        RedBankMsg::MintMaToken { contract_addr, recipient, amount }
            if contract_addr == "matoken" && recipient == "protocol_rewards_collector" && *amount == 16666560));
    assert!(matches!(&out.messages[1],
        RedBankMsg::BurnMaToken { contract_addr, user, amount }
            if contract_addr == "matoken" && user == "withdrawer" && *amount == expected_burn_amount));
    assert!(matches!(&out.messages[2],
        RedBankMsg::SendAsset { recipient, denom, amount }
            if recipient == "withdrawer" && denom == "somecoin" && *amount == withdraw_amount));
    assert_eq!(out.events.len(), 1);
    assert!(matches!(&out.events[0], RedBankEvent::InterestsUpdated { denom, .. } if denom == "somecoin"));
}

#[test]
fn test_withdraw_total_balance() {
    let market = Market {
        liquidity_index: dec(15, 10),
        borrow_index: dec(2, 1),
        borrow_rate: dec(20, 100),
        liquidity_rate: dec(10, 100),
        reserve_factor: dec(1, 10),
        debt_total_scaled: 10_000_000 * SCALING_FACTOR,
        indexes_last_updated: 10000000,
        ..th_market("somecoin")
    };
    let initial_deposit_amount_scaled = 2_000_000 * SCALING_FACTOR;
    // the withdrawer uses the asset as collateral and has no debt
    let user = User { collateral_assets: 1, borrowed_assets: 0 };
    let out = withdraw(
        Some(market),
        Some(user),
        &s("withdrawer"),
        &s("somecoin"),
        None,
        &s("withdrawer"),
        initial_deposit_amount_scaled,
        &vec![],
        12000000,
        &s("protocol_rewards_collector"),
        10002000,
    )
    .unwrap();
    // the whole balance is withdrawn and all maTokens burnt
    assert_eq!(out.withdraw_amount, 3000019);
    assert_eq!(out.burn_amount, initial_deposit_amount_scaled);
    // the asset stops being collateral
    assert!(!get_bit(out.user.unwrap().collateral_assets, 0).unwrap());
    assert!(matches!(&out.events[0],
        RedBankEvent::CollateralPositionChanged { denom, enabled: false, user } if denom == "somecoin" && user == "withdrawer"));
}

#[test]
fn test_withdraw_cannot_exceed_balance() {
    let market = Market { liquidity_index: dec(15, 10), ..th_market("somecoin") };
    let err = withdraw(
        Some(market),
        Some(User::new()),
        &s("withdrawer"),
        &s("somecoin"),
        Some(2000),
        &s("withdrawer"),
        200,
        &vec![],
        0,
        &s("rc"),
        1,
    )
    .unwrap_err();
    assert_eq!(err, ContractError::InvalidWithdrawAmount { denom: s("somecoin") });
}

#[test]
fn test_withdraw_without_existing_position() {
    let balance = 2_000_000 * SCALING_FACTOR;
    // normal address cannot withdraw without an existing position
    let err = withdraw(
        Some(th_market("somecoin")),
        None,
        &s("withdrawer"),
        &s("somecoin"),
        None,
        &s("withdrawer"),
        balance,
        &vec![],
        12000000,
        &s("protocol_rewards_collector"),
        1,
    )
    .unwrap_err();
    assert_eq!(err, ContractError::ExistingUserPositionRequired);

    // protocol_rewards_collector can withdraw without an existing position
    let out = withdraw(
        Some(th_market("somecoin")),
        None,
        &s("protocol_rewards_collector"),
        &s("somecoin"),
        None,
        &s("protocol_rewards_collector"),
        balance,
        &vec![],
        12000000,
        &s("protocol_rewards_collector"),
        1,
    )
    .unwrap();
    assert_eq!(out.withdraw_amount, 2_000_000);
}

#[test]
fn tests_test_update_asset_new_reserve_factor_accrues_interest_rate() {
    check_new_reserve_factor_accrues_interest_rate();
}

#[test]
fn test_admin_test_update_asset_new_reserve_factor_accrues_interest_rate() {
    check_new_reserve_factor_accrues_interest_rate();
}

/// A new reserve factor first accrues interest under the old one, then recomputes the rates.
fn check_new_reserve_factor_accrues_interest_rate() {
    let asset_liquidity = 10_000_000_000000u128;
    let model = InterestRateModel {
        optimal_utilization_rate: dec(80, 100),
        base: Decimal::zero(),
        slope_1: dec(1, 2),
        slope_2: dec(2, 1),
    };
    let asset_initial_debt = 2_000_000_000000u128;
    let market_before = Market {
        reserve_factor: dec(1, 10),
        indexes_last_updated: 1_000_000,
        borrow_rate: dec(12, 100),
        liquidity_rate: dec(12, 100),
        debt_total_scaled: asset_initial_debt * SCALING_FACTOR,
        ma_token_address: s("ma_token"),
        interest_rate_model: model,
        ..th_market("somecoin")
    };
    let params = InitOrUpdateAssetParams {
        initial_borrow_rate: None,
        max_loan_to_value: None,
        reserve_factor: Some(dec(2, 10)),
        liquidation_threshold: None,
        liquidation_bonus: None,
        interest_rate_model: None,
        deposit_enabled: None,
        borrow_enabled: None,
        deposit_cap: None,
    };
    let out = update_asset(
        &th_config(),
        &s("owner"),
        Some(market_before),
        &s("somecoin"),
        params,
        asset_liquidity,
        &s("protocol_rewards_collector"),
        1_500_000,
    )
    .unwrap();
    let new_market = out.market;

    // Indices should have been updated using previous interest rate
    assert_eq!(new_market.liquidity_index, Decimal::raw(1001902587519025875));
    assert_eq!(new_market.borrow_index, Decimal::raw(1001902587519025875));
    assert_eq!(new_market.indexes_last_updated, 1_500_000);
    assert_eq!(new_market.reserve_factor, dec(2, 10));

    // Interest rate should have been recomputed using new strategy and values: a utilization of
    // about 16.7% on the first slope, and 80% of the interest left after the new reserve factor
    assert_eq!(new_market.borrow_rate, Decimal::raw(104331769479488023));
    assert_eq!(new_market.liquidity_rate, Decimal::raw(13932951197082916));

    // proper event is logged
    assert_eq!(out.events.len(), 1);
    assert!(matches!(&out.events[0],
        RedBankEvent::InterestsUpdated { denom, borrow_rate, liquidity_rate, .. }
            if denom == "somecoin" && *borrow_rate == new_market.borrow_rate && *liquidity_rate == new_market.liquidity_rate));

    // the protocol's 10% of the 3805175030 of interest accrued, minted as deposit units
    assert_eq!(out.messages.len(), 1);
    assert!(matches!(&out.messages[0],
        RedBankMsg::MintMaToken { contract_addr, recipient, amount }
            if contract_addr == "ma_token" && recipient == "protocol_rewards_collector" && *amount == 379794909944549));
}

#[test]
fn update_asset_is_owner_only() {
    let err = update_asset(&th_config(), &s("somebody"), Some(th_market("somecoin")), &s("somecoin"), th_asset_params(), 0, &s("rc"), 1)
        .unwrap_err();
    assert_eq!(err, ContractError::Unauthorized);
    let err = update_asset(&th_config(), &s("owner"), None, &s("somecoin"), th_asset_params(), 0, &s("rc"), 1).unwrap_err();
    assert_eq!(err, ContractError::AssetNotInitialized);
}

#[test]
fn test_withdraw_and_send_funds_to_another_user() {
    let initial_available_liquidity = 12000000u128;
    let ma_token_balance_scaled = 2_000_000 * SCALING_FACTOR;
    let market = th_market("somecontract");
    let out = withdraw(
        Some(market.clone()),
        Some(User::new()),
        &s("withdrawer"),
        &s("somecontract"),
        None,
        &s("another_user"),
        ma_token_balance_scaled,
        &vec![],
        initial_available_liquidity,
        &s("protocol_rewards_collector"),
        1,
    )
    .unwrap();
    // the user does not use the asset as collateral after a full withdrawal
    if let Some(user) = out.user {
        assert!(!get_bit(user.collateral_assets, market.index).unwrap());
    }
    let withdraw_amount = compute_underlying_amount(ma_token_balance_scaled, market.liquidity_index).unwrap();
    assert_eq!(withdraw_amount, 2_000_000);
    assert_eq!(out.burn_amount, ma_token_balance_scaled);
    assert_eq!(out.withdraw_amount, withdraw_amount);
    // the funds are received by `another_user`
    assert_eq!(out.messages.len(), 2);
    assert!(matches!(&out.messages[0],
        RedBankMsg::BurnMaToken { contract_addr, user, amount }
            if contract_addr == "matoken" && user == "withdrawer" && *amount == ma_token_balance_scaled));
    assert!(matches!(&out.messages[1],
        RedBankMsg::SendAsset { recipient, denom, amount }
            if recipient == "another_user" && denom == "somecontract" && *amount == withdraw_amount));
}

#[test]
fn test_withdraw_if_health_factor_not_met() {
    let initial_available_liquidity = 10000000u128;
    let market_1 = Market {
        index: 0,
        ma_token_address: s("matoken1"),
        max_loan_to_value: dec(40, 100),
        liquidation_threshold: dec(60, 100),
        ..th_market("token1")
    };
    let market_2 = Market {
        index: 1,
        ma_token_address: s("matoken2"),
        max_loan_to_value: dec(50, 100),
        liquidation_threshold: dec(80, 100),
        ..th_market("token2")
    };
    let market_3 = Market {
        index: 2,
        ma_token_address: s("matoken3"),
        max_loan_to_value: dec(20, 100),
        liquidation_threshold: dec(40, 100),
        ..th_market("token3")
    };
    // markets 1 and 3 are collateral, market 2 is borrowed
    let mut user = User::new();
    set_bit(&mut user.collateral_assets, 0).unwrap();
    set_bit(&mut user.collateral_assets, 2).unwrap();
    set_bit(&mut user.borrowed_assets, 1).unwrap();
    let ma_token_1_balance_scaled = 100_000 * SCALING_FACTOR;
    let ma_token_3_balance_scaled = 600_000 * SCALING_FACTOR;
    // uncollateralized debt shouldn't count for the health factor
    let debt = Debt { amount_scaled: 200_000 * SCALING_FACTOR, uncollateralized: false };
    let uncollateralized_debt = Debt { amount_scaled: 200_000 * SCALING_FACTOR, uncollateralized: true };
    let snapshots = vec![
        Some(MarketSnapshot { denom: s("token1"), market: market_1.clone(), collateral_balance_scaled: ma_token_1_balance_scaled, debt: None, price: dec(3, 1) }),
        Some(MarketSnapshot { denom: s("token2"), market: market_2.clone(), collateral_balance_scaled: 0, debt: Some(debt), price: dec(2, 1) }),
        Some(MarketSnapshot {
            denom: s("token3"),
            market: market_3.clone(),
            collateral_balance_scaled: ma_token_3_balance_scaled,
            debt: Some(uncollateralized_debt),
            price: Decimal::one(),
        }),
    ];
    // health factor one: (100000 * 0.6 * 3 + 600000 * 0.4 * 1 - 200000 * 2) / 0.4 / 1
    let how_much_to_withdraw = 50_000u128;
    let run = |amount: u128| {
        withdraw(
            Some(market_3.clone()),
            Some(user),
            &s("withdrawer"),
            &s("token3"),
            Some(amount),
            &s("withdrawer"),
            ma_token_3_balance_scaled,
            &snapshots,
            initial_available_liquidity,
            &s("protocol_rewards_collector"),
            1,
        )
    };

    // the withdraw amount needs to be a little bit greater to have health factor less than one
    assert_eq!(run(how_much_to_withdraw + 10).unwrap_err(), ContractError::InvalidHealthFactorAfterWithdraw);

    // and a little bit smaller to have health factor greater than one
    let withdraw_amount = how_much_to_withdraw - 10;
    let out = run(withdraw_amount).unwrap();
    let withdraw_amount_scaled = get_scaled_liquidity_amount(withdraw_amount, &market_3, 1).unwrap();
    assert_eq!(out.messages.len(), 2);
    assert!(matches!(&out.messages[0],
        RedBankMsg::BurnMaToken { contract_addr, user, amount }
            if contract_addr == "matoken3" && user == "withdrawer" && *amount == withdraw_amount_scaled));
    assert!(matches!(&out.messages[1],
        RedBankMsg::SendAsset { recipient, denom, amount } if recipient == "withdrawer" && denom == "token3" && *amount == withdraw_amount));
}

#[test]
fn withdrawing_a_deposit_at_once_never_pays_more() {
    let market = Market { liquidity_index: dec(3, 1), ..th_market("somecoin") };
    let out = deposit(Some(market), None, &s("depositor"), &s("somecoin"), 110000, 0, 110000, &s("rc"), 7).unwrap();
    // 110000 at an index of 3 mints 36666666666 units, worth 109999 at that index
    assert_eq!(out.mint_amount, 36666666666);
    let back = withdraw(Some(out.market), out.user, &s("depositor"), &s("somecoin"), None, &s("depositor"), out.mint_amount, &vec![], 110000, &s("rc"), 7)
        .unwrap();
    assert_eq!(back.withdraw_amount, 109999);
    assert!(back.withdraw_amount <= 110000);
}
