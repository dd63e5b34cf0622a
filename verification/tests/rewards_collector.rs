use mars_contracts::decimal::Decimal;
use mars_contracts::market::{ParamName, Predicate, ValidationError};
use mars_contracts::rewards_collector::{
    distribute_rewards, execute_cosmos_msg, instantiate, set_route, stringify_option_amount, swap_asset,
    unwrap_option_amount, update_config, Config, ContractError, CreateOrUpdateConfig, Destination, QueryMsg,
    RouteError, Step, SwapInstruction,
};

fn s(v: &str) -> String {
    v.to_string()
}

fn percent(p: u128) -> Decimal {
    Decimal::from_ratio(p, 100).unwrap()
}

fn base_config(rate: Decimal, channel: &str) -> CreateOrUpdateConfig {
    CreateOrUpdateConfig {
        owner: Some(s("owner")),
        address_provider: Some(s("address_provider")),
        safety_tax_rate: Some(rate),
        safety_fund_denom: Some(s("uusdc")),
        fee_collector_denom: Some(s("umars")),
        channel_id: Some(s(channel)),
        timeout_revision: Some(1),
        timeout_blocks: Some(50),
        timeout_seconds: Some(300),
    }
}

fn empty_config() -> CreateOrUpdateConfig {
    CreateOrUpdateConfig {
        owner: None,
        address_provider: None,
        safety_tax_rate: None,
        safety_fund_denom: None,
        fee_collector_denom: None,
        channel_id: None,
        timeout_revision: None,
        timeout_blocks: None,
        timeout_seconds: None,
    }
}

fn th_setup() -> Config {
    instantiate(base_config(percent(50), "channel-182")).unwrap()
}

fn step(pool_id: u64, denom_out: &str) -> Step {
    Step { pool_id, denom_out: s(denom_out) }
}

fn too_large(rate: Decimal) -> ContractError {
    ContractError::Validation(ValidationError::InvalidParam {
        param_name: ParamName::SafetyTaxRate,
        invalid_value: rate,
        predicate: Predicate::LeOne,
    })
}

#[test]
fn tests_test_proper_initialization() {
    // init config with empty params
    assert_eq!(instantiate(empty_config()).unwrap_err(), ContractError::InstantiateParamsUnavailable);

    // init config with safety_tax_rate greater than 1
    let safety_tax_rate = Decimal::from_ratio(11, 10).unwrap();
    assert_eq!(instantiate(base_config(safety_tax_rate, "channel-110")).unwrap_err(), too_large(safety_tax_rate));

    // init config with valid params
    let safety_tax_rate = Decimal::from_ratio(5, 10).unwrap();
    let config = instantiate(base_config(safety_tax_rate, "channel-110")).unwrap();
    assert_eq!(config.owner, "owner");
    assert_eq!(config.address_provider, "address_provider");
    assert_eq!(config.safety_tax_rate, safety_tax_rate);
    assert_eq!(config.safety_fund_denom, "uusdc");
    assert_eq!(config.fee_collector_denom, "umars");
    assert_eq!(config.channel_id, "channel-110");
}

#[test]
fn tests_test_update_config() {
    // non owner is not authorized
    let err = update_config(th_setup(), &s("somebody"), base_config(percent(10), "channel-182")).unwrap_err();
    assert_eq!(err, ContractError::Unauthorized);

    // update config with safety_tax_rate greater than 1
    for rate in [Decimal::from_ratio(11, 10).unwrap(), Decimal::from_ratio(12, 10).unwrap()] {
        let new_config = CreateOrUpdateConfig { owner: None, ..base_config(rate, "channel-182") };
        assert_eq!(update_config(th_setup(), &s("owner"), new_config).unwrap_err(), too_large(rate));
    }

    // update config with all new params
    let safety_tax_rate = Decimal::from_ratio(5, 100).unwrap();
    let new_config = CreateOrUpdateConfig {
        owner: Some(s("new_owner")),
        address_provider: Some(s("new_address_provider")),
        safety_tax_rate: Some(safety_tax_rate),
        safety_fund_denom: Some(s("uatom")),
        fee_collector_denom: Some(s("uosmo")),
        channel_id: Some(s("channel-182")),
        timeout_revision: Some(1),
        timeout_blocks: Some(50),
        timeout_seconds: None,
    };
    let config = update_config(th_setup(), &s("owner"), new_config).unwrap();
    assert_eq!(config.owner, "new_owner");
    assert_eq!(config.address_provider, "new_address_provider");
    assert_eq!(config.safety_tax_rate, safety_tax_rate);
    assert_eq!(config.safety_fund_denom, "uatom");
    assert_eq!(config.fee_collector_denom, "uosmo");
    assert_eq!(config.timeout_seconds, 300);
}

#[test]
fn test_distribute_protocol_rewards() {
    let balance = 2_000_000_000u128;
    let config = th_setup();
    let block_height = 12_345u64;

    // an asset that isn't enabled for distribution
    let err = distribute_rewards(&config, &s("uosmo"), 0, Some(1_500_000_000), block_height).unwrap_err();
    assert_eq!(err, ContractError::AssetNotEnabledForDistribution { denom: s("uosmo") });

    // an amount exceeding the balance
    let exceeding_amount = 2_000_000_001u128;
    let err = distribute_rewards(&config, &s("uusdc"), balance, Some(exceeding_amount), block_height).unwrap_err();
    assert_eq!(err, ContractError::AmountToDistributeTooLarge { amount: exceeding_amount, balance });

    // an amount less than the balance, to the safety fund
    let permissible_amount = 1_500_000_000u128;
    let d = distribute_rewards(&config, &s("uusdc"), balance, Some(permissible_amount), block_height).unwrap();
    assert_eq!(d.destination, Destination::SafetyFund);
    assert_eq!(d.channel_id, "channel-182");
    assert_eq!(d.denom, "uusdc");
    assert_eq!(d.amount, permissible_amount);
    assert_eq!(d.timeout_revision, 1);
    assert_eq!(d.timeout_height, 12395);

    // no amount given: the whole balance, to the fee collector
    let d = distribute_rewards(&config, &s("umars"), 1_000_000, None, block_height).unwrap();
    assert_eq!(d.destination, Destination::FeeCollector);
    assert_eq!(d.amount, 1_000_000);
    assert_eq!(d.timeout_height, 12395);
}

#[test]
fn test_execute_swap_msg() {
    let config = th_setup();
    let safety = SwapInstruction(vec![step(1, "uosmo"), step(2, "uusdc")]);
    let fee = SwapInstruction(vec![step(1, "uosmo"), step(3, "umars")]);
    let out = swap_asset(&config, &s("uatom"), 500_000, None, Some(safety), Some(fee)).unwrap();
    assert_eq!(out.amount_safety_fund, 250_000);
    assert_eq!(out.amount_fee_collector, 250_000);
    assert_eq!(out.messages.len(), 2);
    assert_eq!(out.messages[0].first.pool_id, 1);
    assert_eq!(out.messages[0].first.denom_in, "uatom");
    assert_eq!(out.messages[0].first.denom_out, "uosmo");
    assert_eq!(out.messages[0].route.len(), 1);
    assert_eq!(out.messages[0].route[0].pool_id, 2);
    assert_eq!(out.messages[0].route[0].denom_out, "uusdc");
    assert_eq!(out.messages[0].amount, 250_000);
    assert_eq!(out.messages[0].min_output, 0);
    assert_eq!(out.messages[1].route[0].pool_id, 3);
    assert_eq!(out.messages[1].route[0].denom_out, "umars");
    assert_eq!(out.messages[1].amount, 250_000);
    assert_eq!(stringify_option_amount(Some(out.amount_fee_collector)), "250000");

    // swap all the amount to safety fund (safety fund tax rate = 1)
    let new_config = CreateOrUpdateConfig { safety_tax_rate: Some(percent(100)), ..empty_config() };
    let config = update_config(config, &s("owner"), new_config).unwrap();
    let safety = SwapInstruction(vec![step(1, "uosmo"), step(2, "uusdc")]);
    let fee = SwapInstruction(vec![step(1, "uosmo"), step(3, "umars")]);
    let out = swap_asset(&config, &s("uatom"), 500_000, None, Some(safety), Some(fee)).unwrap();
    assert_eq!(out.messages.len(), 1);
    assert_eq!(out.messages[0].route[0].denom_out, "uusdc");
    assert_eq!(out.messages[0].amount, 500_000);
    assert_eq!(out.amount_safety_fund, 500_000);
    assert_eq!(out.amount_fee_collector, 0);
    assert_eq!(stringify_option_amount(Some(out.amount_fee_collector)), "0");
}

#[test]
fn test_swapping_asset() {
    let config = instantiate(base_config(percent(25), "channel-69")).unwrap();
    let safety = SwapInstruction(vec![step(1, "uosmo"), step(69, "uusdc")]);
    let fee = SwapInstruction(vec![step(1, "uosmo"), step(420, "umars")]);
    let out = swap_asset(&config, &s("uatom"), 88888, Some(42069), Some(safety), Some(fee)).unwrap();

    // amount for safety fund:   42069 * 0.25 = 10517
    // amount for fee collector: 42069 - 10517 = 31552
    assert_eq!(out.messages.len(), 2);
    let m = &out.messages[0];
    assert_eq!((m.first.pool_id, m.first.denom_in.as_str(), m.first.denom_out.as_str()), (1, "uatom", "uosmo"));
    assert_eq!(m.route.len(), 1);
    assert_eq!((m.route[0].pool_id, m.route[0].denom_out.as_str()), (69, "uusdc"));
    assert_eq!((m.amount, m.min_output), (10517, 0));
    let m = &out.messages[1];
    assert_eq!((m.first.pool_id, m.first.denom_in.as_str(), m.first.denom_out.as_str()), (1, "uatom", "uosmo"));
    assert_eq!((m.route[0].pool_id, m.route[0].denom_out.as_str()), (420, "umars"));
    assert_eq!((m.amount, m.min_output), (31552, 0));
}

#[test]
fn tests_test_execute_cosmos_msg() {
    let config = th_setup();
    let msg = (s("destination"), s("uluna"), 123456u128);
    assert_eq!(execute_cosmos_msg(&config, &s("somebody"), msg.clone()).unwrap_err(), ContractError::Unauthorized);
    assert_eq!(execute_cosmos_msg(&config, &s("owner"), msg.clone()).unwrap(), msg);
}

#[test]
fn swap_needs_stored_routes() {
    let config = th_setup();
    let err = swap_asset(&config, &s("uatom"), 100, None, None, None).unwrap_err();
    assert_eq!(err, ContractError::RouteNotFound { denom_in: s("uatom"), denom_out: s("uusdc") });
    let safety = SwapInstruction(vec![step(1, "uusdc")]);
    let err = swap_asset(&config, &s("uatom"), 100, None, Some(safety), None).unwrap_err();
    assert_eq!(err, ContractError::RouteNotFound { denom_in: s("uatom"), denom_out: s("umars") });
    let err = swap_asset(&config, &s("uatom"), 100, Some(101), None, None).unwrap_err();
    assert_eq!(err, ContractError::AmountToDistributeTooLarge { amount: 101, balance: 100 });
    let empty = SwapInstruction(vec![]);
    let err = swap_asset(&config, &s("uatom"), 100, None, Some(empty), None).unwrap_err();
    assert_eq!(err, ContractError::InvalidSwapRoute(RouteError::Empty));
    // nothing to swap needs no route
    let out = swap_asset(&config, &s("uatom"), 0, None, None, None).unwrap();
    assert_eq!(out.messages.len(), 0);
}

#[test]
fn routes_are_checked_against_their_pools() {
    let config = th_setup();
    let pools = vec![vec![s("uatom"), s("uosmo")], vec![s("uosmo"), s("umars")]];
    let route = SwapInstruction(vec![step(1, "uosmo"), step(420, "umars")]);
    assert_eq!(set_route(&config, &s("owner"), &s("uatom"), &s("umars"), &route, &pools), Ok(()));
    assert_eq!(
        set_route(&config, &s("somebody"), &s("uatom"), &s("umars"), &route, &pools),
        Err(ContractError::Unauthorized)
    );

    let empty = SwapInstruction(vec![]);
    assert_eq!(
        set_route(&config, &s("owner"), &s("uatom"), &s("umars"), &empty, &pools),
        Err(ContractError::InvalidSwapRoute(RouteError::Empty))
    );
    assert_eq!(
        set_route(&config, &s("owner"), &s("uusdc"), &s("umars"), &route, &pools),
        Err(ContractError::InvalidSwapRoute(RouteError::MissingInputDenom { step: 0, pool_id: 1, denom: s("uusdc") }))
    );
    let bad_out = SwapInstruction(vec![step(1, "uusdc")]);
    assert_eq!(
        set_route(&config, &s("owner"), &s("uatom"), &s("uusdc"), &bad_out, &pools),
        Err(ContractError::InvalidSwapRoute(RouteError::MissingOutputDenom { step: 0, pool_id: 1, denom: s("uusdc") }))
    );
    let round_trip = SwapInstruction(vec![step(1, "uosmo"), step(1, "uatom")]);
    let pools_round = vec![vec![s("uatom"), s("uosmo")], vec![s("uatom"), s("uosmo")]];
    assert_eq!(
        set_route(&config, &s("owner"), &s("uatom"), &s("uatom"), &round_trip, &pools_round),
        Err(ContractError::InvalidSwapRoute(RouteError::SameInputAndOutput { denom: s("uatom") }))
    );
    assert_eq!(
        set_route(&config, &s("owner"), &s("uatom"), &s("uusdc"), &route, &pools),
        Err(ContractError::InvalidSwapRoute(RouteError::OutputMismatch { route_output: s("umars"), desired: s("uusdc") }))
    );
    assert_eq!(
        set_route(&config, &s("owner"), &s("uatom"), &s("umars"), &route, &vec![vec![s("uatom"), s("uosmo")]]),
        Err(ContractError::InvalidSwapRoute(RouteError::PoolNotFound { step: 1, pool_id: 420 }))
    );
}

#[test]
fn optional_amounts() {
    assert_eq!(unwrap_option_amount(10, None), Ok(10));
    assert_eq!(unwrap_option_amount(10, Some(4)), Ok(4));
    assert_eq!(unwrap_option_amount(10, Some(11)), Err(ContractError::AmountToDistributeTooLarge { amount: 11, balance: 10 }));
    assert_eq!(stringify_option_amount(None), "undefined");
    assert_eq!(stringify_option_amount(Some(42069)), "42069");
    assert_eq!(stringify_option_amount(Some(u128::MAX)), "340282366920938463463374607431768211455");
    assert!(matches!(QueryMsg::Config {}, QueryMsg::Config {}));
}
