use mars_contracts::decimal::{multiply_ratio, mul_floor, Decimal, MathError};
use mars_contracts::staking::{
    apply_slash_events_to_claim, compute_mars_per_xmars, compute_xmars_per_mars, execute_claim, execute_stake,
    execute_swap_asset_to_uusd, execute_swap_uusd_to_mars, execute_transfer_mars, execute_unstake,
    execute_update_config, get_staking_tokens_info, instantiate, query_claim, query_mars_per_xmars,
    query_xmars_per_mars, AssetInfo, Claim, Config, ContractError, CreateOrUpdateConfig, GlobalState, SlashEvent,
    TokenState,
};

const TEST_COOLDOWN_DURATION: u64 = 1000;

fn s(v: &str) -> String {
    v.to_string()
}

fn th_config() -> Config {
    let msg = CreateOrUpdateConfig {
        owner: Some(s("owner")),
        address_provider_address: Some(s("address_provider")),
        astroport_factory_address: Some(s("astroport_factory")),
        astroport_max_spread: Some(Decimal::from_ratio(1, 100).unwrap()),
        cooldown_duration: Some(TEST_COOLDOWN_DURATION),
    };
    instantiate(msg).unwrap().0
}

fn tokens(mars_balance: u128, xmars_supply: u128) -> TokenState {
    TokenState {
        mars_token_address: s("mars_token"),
        xmars_token_address: s("xmars_token"),
        mars_balance,
        xmars_supply,
    }
}

fn one_minus(d: Decimal) -> Decimal {
    Decimal::one().checked_sub(d).unwrap()
}

#[test]
fn contract_test_proper_initialization() {
    // init config with empty params
    let empty_config = CreateOrUpdateConfig {
        owner: None,
        address_provider_address: None,
        astroport_factory_address: None,
        astroport_max_spread: None,
        cooldown_duration: None,
    };
    assert!(matches!(instantiate(empty_config), Err(ContractError::InstantiateParamsUnavailable)));

    let config = CreateOrUpdateConfig {
        owner: Some(s("owner")),
        address_provider_address: Some(s("address_provider")),
        astroport_factory_address: Some(s("astroport_factory")),
        astroport_max_spread: Some(Decimal::from_ratio(1, 100).unwrap()),
        cooldown_duration: Some(20),
    };
    let (config, global_state) = instantiate(config).unwrap();
    assert_eq!(config.owner, "owner");
    assert_eq!(config.address_provider_address, "address_provider");
    assert_eq!(config.cooldown_duration, 20);
    assert_eq!(global_state.total_mars_for_claimers, 0);
}

#[test]
fn contract_test_update_config() {
    let config = th_config();

    // non owner is not authorized
    let new_config = CreateOrUpdateConfig {
        owner: Some(s("owner")),
        address_provider_address: Some(s("address_provider")),
        astroport_factory_address: Some(s("astroport_factory")),
        astroport_max_spread: Some(Decimal::from_ratio(1, 100).unwrap()),
        cooldown_duration: Some(20),
    };
    assert!(matches!(
        execute_update_config(th_config(), &s("somebody"), new_config),
        Err(ContractError::Unauthorized)
    ));

    // update config with all new params
    let new_config = CreateOrUpdateConfig {
        owner: Some(s("new_owner")),
        address_provider_address: Some(s("new_address_provider")),
        astroport_factory_address: Some(s("new_factory")),
        astroport_max_spread: Some(Decimal::from_ratio(2, 100).unwrap()),
        cooldown_duration: Some(200),
    };
    let updated = execute_update_config(config, &s("owner"), new_config).unwrap();
    assert_eq!(updated.owner, "new_owner");
    assert_eq!(updated.address_provider_address, "new_address_provider");
    assert_eq!(updated.astroport_factory_address, "new_factory");
    assert_eq!(updated.astroport_max_spread, Decimal::from_ratio(2, 100).unwrap());
    assert_eq!(updated.cooldown_duration, 200);
}

#[test]
fn test_stake() {
    // no Mars in pool: stake X Mars -> should receive X xMars
    let global_state = GlobalState { total_mars_for_claimers: 0 };
    let res = execute_stake(&global_state, &s("mars_token"), s("staker"), None, 2_000_000, tokens(2_000_000, 0)).unwrap();
    assert_eq!(res.xmars_token_address, "xmars_token");
    assert_eq!(res.recipient, "staker");
    assert_eq!(res.mint_amount, 2_000_000);

    // Some Mars in pool and some xMars supply: stake Mars -> should receive less xMars, sent to
    // the recipient; open claims do not count as staked mars
    let stake_amount = 2_000_000u128;
    let mars_in_contract = 4_000_000u128;
    let xmars_supply = 1_000_000u128;
    let total_mars_for_claimers = 500_000u128;
    let global_state = GlobalState { total_mars_for_claimers };
    let res = execute_stake(
        &global_state,
        &s("mars_token"),
        s("staker"),
        Some(s("recipient")),
        stake_amount,
        tokens(mars_in_contract, xmars_supply),
    )
    .unwrap();
    let expected_minted_xmars =
        multiply_ratio(stake_amount, xmars_supply, mars_in_contract - stake_amount - total_mars_for_claimers).unwrap();
    assert_eq!(res.mint_amount, expected_minted_xmars);
    assert_eq!(res.recipient, "recipient");

    // stake other token -> Unauthorized
    let res = execute_stake(&global_state, &s("other_token"), s("staker"), None, 2_000_000, tokens(mars_in_contract, xmars_supply));
    assert!(matches!(res, Err(ContractError::Unauthorized)));
}

#[test]
fn test_unstake() {
    let config = th_config();
    let unstake_amount = 1_000_000u128;
    let unstake_mars_in_contract = 4_000_000u128;
    let unstake_xmars_supply = 3_000_000u128;
    let unstake_height = 123456u64;
    let unstake_time = 1_000_000_000u64;
    let initial_mars_for_claimers = 700_000u128;
    let mut mars_for_claimers = initial_mars_for_claimers;
    let global_state = GlobalState { total_mars_for_claimers: initial_mars_for_claimers };

    // unstake other token -> Unauthorized
    let err = execute_unstake(
        &config,
        &global_state,
        &s("other_token"),
        s("staker"),
        Some(s("recipient")),
        unstake_amount,
        tokens(unstake_mars_in_contract, unstake_xmars_supply),
        None,
        unstake_height,
        unstake_time,
    );
    assert!(matches!(err, Err(ContractError::Unauthorized)));

    // valid unstake
    let res = execute_unstake(
        &config,
        &global_state,
        &s("xmars_token"),
        s("staker"),
        Some(s("recipient")),
        unstake_amount,
        tokens(unstake_mars_in_contract, unstake_xmars_supply),
        None,
        unstake_height,
        unstake_time,
    )
    .unwrap();
    let expected_claimable_mars =
        multiply_ratio(unstake_amount, unstake_mars_in_contract - initial_mars_for_claimers, unstake_xmars_supply).unwrap();
    assert_eq!(res.burn_amount, unstake_amount);
    assert_eq!(res.xmars_token_address, "xmars_token");
    assert_eq!(res.recipient, "recipient");
    assert_eq!(
        res.claim,
        Claim {
            created_at_block: unstake_height,
            cooldown_end_timestamp: unstake_time + TEST_COOLDOWN_DURATION,
            amount: expected_claimable_mars,
        }
    );
    mars_for_claimers += expected_claimable_mars;
    assert_eq!(res.global_state.total_mars_for_claimers, mars_for_claimers);
    let recipient_claim = res.claim;
    let global_state = res.global_state;

    // cannot unstake again (recipient has an open claim)
    let err = execute_unstake(
        &config,
        &global_state,
        &s("xmars_token"),
        s("staker"),
        Some(s("recipient")),
        unstake_amount,
        tokens(unstake_mars_in_contract, unstake_xmars_supply),
        Some(recipient_claim),
        unstake_height,
        unstake_time,
    );
    assert!(matches!(err, Err(ContractError::UnstakeActiveClaim)));

    // unstake again, but use `None` as recipient: it defaults to the staker, which has no
    // open claim
    let res = execute_unstake(
        &config,
        &global_state,
        &s("xmars_token"),
        s("staker"),
        None,
        unstake_amount,
        tokens(unstake_mars_in_contract, unstake_xmars_supply),
        None,
        unstake_height,
        unstake_time,
    )
    .unwrap();
    assert_eq!(res.recipient, "staker");
    let expected_claimable_mars =
        multiply_ratio(unstake_amount, unstake_mars_in_contract - mars_for_claimers, unstake_xmars_supply).unwrap();
    assert_eq!(
        res.claim,
        Claim {
            created_at_block: unstake_height,
            cooldown_end_timestamp: unstake_time + TEST_COOLDOWN_DURATION,
            amount: expected_claimable_mars,
        }
    );
    mars_for_claimers += expected_claimable_mars;
    assert_eq!(res.global_state.total_mars_for_claimers, mars_for_claimers);
}

#[test]
fn test_claim() {
    let initial_mars_for_claimers = 4_000_000_000000u128;
    let claim = Claim { amount: 5_000_000000, created_at_block: 123456, cooldown_end_timestamp: 1_000_000 };
    let global_state = GlobalState { total_mars_for_claimers: initial_mars_for_claimers };
    let no_events: Vec<(u64, SlashEvent)> = vec![];

    // Claim previous to cooldown end fails
    let err = execute_claim(Some(claim), &global_state, &no_events, &s("claimer"), None, 999_999);
    assert!(matches!(err, Err(ContractError::ClaimCooldownNotEnded)));

    // Query claim gives correct claim
    let queried = query_claim(Some(claim), &no_events).unwrap();
    assert_eq!(claim.amount, queried.unwrap().amount);

    // Successful claim
    let res = execute_claim(Some(claim), &global_state, &no_events, &s("claimer"), None, 1_233_000).unwrap();
    assert_eq!(res.claim.amount, claim.amount);
    assert_eq!(res.recipient, "claimer");
    assert_eq!(res.global_state.total_mars_for_claimers, initial_mars_for_claimers - claim.amount);

    // the claim was deleted: querying finds none and claiming again fails
    assert_eq!(query_claim(None, &no_events).unwrap(), None);
    let err = execute_claim(None, &res.global_state, &no_events, &s("claimer"), None, 1_233_000);
    assert!(matches!(err, Err(ContractError::ClaimNotFound)));
}

#[test]
fn test_claim_with_slash() {
    let initial_mars_for_claimers = 100_000_000_00000u128;
    let initial_claim_amount = 5_000_000000u128;
    let claim = Claim { amount: initial_claim_amount, created_at_block: 100_000, cooldown_end_timestamp: 1_000_000 };
    let claim_time = 1_000_000u64;
    let slash_percentage_one = Decimal::from_ratio(1, 2).unwrap();
    let slash_percentage_two = Decimal::from_ratio(1, 3).unwrap();
    let global_state = GlobalState { total_mars_for_claimers: initial_mars_for_claimers };

    let mut events = vec![
        (claim.created_at_block - 1, SlashEvent { slash_percentage: Decimal::from_ratio(80, 100).unwrap() }),
        (claim.created_at_block, SlashEvent { slash_percentage: slash_percentage_one }),
    ];

    // one slash (slashes previous to claim don't count); other as recipient
    let expected_claim_amount = mul_floor(initial_claim_amount, one_minus(slash_percentage_one)).unwrap();
    let queried = query_claim(Some(claim), &events).unwrap();
    assert_eq!(expected_claim_amount, queried.unwrap().amount);
    let res = execute_claim(Some(claim), &global_state, &events, &s("claimer"), Some(s("recipient")), claim_time).unwrap();
    assert_eq!(res.recipient, "recipient");
    assert_eq!(res.claim.amount, expected_claim_amount);
    assert_eq!(res.global_state.total_mars_for_claimers, initial_mars_for_claimers - expected_claim_amount);

    // two slashes
    events.push((claim.created_at_block + 200, SlashEvent { slash_percentage: slash_percentage_two }));
    let expected_claim_amount = mul_floor(
        mul_floor(initial_claim_amount, one_minus(slash_percentage_one)).unwrap(),
        one_minus(slash_percentage_two),
    )
    .unwrap();
    let queried = query_claim(Some(claim), &events).unwrap();
    assert_eq!(expected_claim_amount, queried.unwrap().amount);
    let res = execute_claim(Some(claim), &global_state, &events, &s("claimer"), None, claim_time).unwrap();
    assert_eq!(res.recipient, "claimer");
    assert_eq!(res.claim.amount, expected_claim_amount);
    assert_eq!(res.global_state.total_mars_for_claimers, initial_mars_for_claimers - expected_claim_amount);
}

#[test]
fn test_transfer_mars() {
    let config = th_config();
    let initial_mars_for_claimers = 4_000_000_000000u128;
    let initial_mars_in_contract = 10_000_000_000000u128;
    let transfer_amount = 4_000_000_000000u128;
    let global_state = GlobalState { total_mars_for_claimers: initial_mars_for_claimers };

    // Transfer by non owner fails
    let err = execute_transfer_mars(&config, &s("anyone"), transfer_amount, initial_mars_in_contract, &global_state);
    assert!(matches!(err, Err(ContractError::Unauthorized)));

    // Transfer big amount fails
    let err = execute_transfer_mars(&config, &s("owner"), initial_mars_in_contract + 10, initial_mars_in_contract, &global_state);
    assert!(matches!(err, Err(ContractError::TransferMarsAmountTooLarge)));

    // Successful transfer
    let res = execute_transfer_mars(&config, &s("owner"), transfer_amount, initial_mars_in_contract, &global_state).unwrap();
    let expected_slash_percentage = Decimal::from_ratio(transfer_amount, initial_mars_in_contract).unwrap();
    // should be reduced proportionally
    let expected_total_mars_for_claimers =
        multiply_ratio(initial_mars_for_claimers, initial_mars_in_contract - transfer_amount, initial_mars_in_contract).unwrap();
    assert_eq!(res.slash_event, SlashEvent { slash_percentage: expected_slash_percentage });
    assert_eq!(res.global_state.total_mars_for_claimers, expected_total_mars_for_claimers);
}

#[test]
fn test_cannot_swap_mars() {
    let config = th_config();
    let res = execute_swap_asset_to_uusd(&config, AssetInfo::Token { contract_addr: s("mars_token") }, None, &s("mars_token"));
    assert!(matches!(res, Err(ContractError::MarsCannotSwap)));

    // Check for case sensitivity
    let res = execute_swap_asset_to_uusd(&config, AssetInfo::Token { contract_addr: s("MARS_token") }, None, &s("mars_token"));
    assert!(matches!(res, Err(ContractError::MarsCannotSwap)));
}

#[test]
fn swap_of_another_asset_goes_to_uusd() {
    let config = th_config();
    let req = execute_swap_asset_to_uusd(&config, AssetInfo::Token { contract_addr: s("other_token") }, Some(77), &s("mars_token"))
        .unwrap();
    assert!(matches!(req.offer_asset_info, AssetInfo::Token { ref contract_addr } if contract_addr == "other_token"));
    assert!(matches!(req.ask_asset_info, AssetInfo::NativeToken { ref denom } if denom == "uusd"));
    assert_eq!(req.amount, Some(77));
    assert_eq!(req.astroport_factory_address, "astroport_factory");
    assert_eq!(req.max_spread, Some(Decimal::from_ratio(1, 100).unwrap()));

    let req = execute_swap_uusd_to_mars(&config, None, s("mars_token"));
    assert!(matches!(req.offer_asset_info, AssetInfo::NativeToken { ref denom } if denom == "uusd"));
    assert!(matches!(req.ask_asset_info, AssetInfo::Token { ref contract_addr } if contract_addr == "mars_token"));
    assert_eq!(req.amount, None);
}

#[test]
fn slashing_never_increases_a_claim() {
    let mut claim = Claim { amount: 1_000_001, created_at_block: 10, cooldown_end_timestamp: 0 };
    let events = vec![
        (10, SlashEvent { slash_percentage: Decimal::from_ratio(1, 3).unwrap() }),
        (11, SlashEvent { slash_percentage: Decimal::zero() }),
        (12, SlashEvent { slash_percentage: Decimal::one() }),
    ];
    apply_slash_events_to_claim(&mut claim, &events).unwrap();
    assert_eq!(claim.amount, 0);

    // a slash above one is refused and leaves the claim as it was
    let mut claim = Claim { amount: 500, created_at_block: 1, cooldown_end_timestamp: 7 };
    let bad = vec![(5, SlashEvent { slash_percentage: Decimal::raw(2_000_000_000_000_000_000) })];
    assert_eq!(apply_slash_events_to_claim(&mut claim, &bad), Err(MathError::Overflow));
    assert_eq!(claim, Claim { amount: 500, created_at_block: 1, cooldown_end_timestamp: 7 });
}

#[test]
fn ratios_are_undefined_together() {
    let global_state = GlobalState { total_mars_for_claimers: 0 };
    assert_eq!(query_xmars_per_mars(tokens(0, 10), &global_state).unwrap(), None);
    assert_eq!(query_mars_per_xmars(tokens(0, 10), &global_state).unwrap(), None);
    assert_eq!(query_xmars_per_mars(tokens(10, 0), &global_state).unwrap(), None);
    assert_eq!(query_mars_per_xmars(tokens(10, 0), &global_state).unwrap(), None);

    let info = get_staking_tokens_info(tokens(400, 100), &GlobalState { total_mars_for_claimers: 200 }, 0).unwrap();
    assert_eq!(info.total_mars_for_stakers, 200);
    assert_eq!(compute_xmars_per_mars(&info).unwrap(), Some(Decimal::from_ratio(1, 2).unwrap()));
    assert_eq!(compute_mars_per_xmars(&info).unwrap(), Some(Decimal::from_ratio(2, 1).unwrap()));

    // claims larger than the pool are an overflow
    let err = get_staking_tokens_info(tokens(100, 100), &GlobalState { total_mars_for_claimers: 200 }, 0);
    assert!(matches!(err, Err(ContractError::Math(MathError::Overflow))));
}

#[test]
fn unstake_errors() {
    let config = th_config();
    let global_state = GlobalState { total_mars_for_claimers: 0 };
    let err = execute_unstake(&config, &global_state, &s("xmars_token"), s("staker"), None, 0, tokens(10, 10), None, 1, 1);
    assert!(matches!(err, Err(ContractError::UnstakeAmountZero)));
    let err = execute_unstake(&config, &global_state, &s("xmars_token"), s("staker"), None, 5, tokens(10, 0), None, 1, 1);
    assert!(matches!(err, Err(ContractError::RatioUndefined)));
    // burning more xMARS than exists claims more MARS than the pool holds
    let err = execute_unstake(&config, &global_state, &s("xmars_token"), s("staker"), None, 20, tokens(10, 10), None, 1, 1);
    assert!(matches!(err, Err(ContractError::MarsForClaimersOverflow)));
    let err = execute_stake(&global_state, &s("mars_token"), s("staker"), None, 0, tokens(10, 10));
    assert!(matches!(err, Err(ContractError::StakeAmountZero)));
}

#[test]
fn transfer_of_an_empty_pool_divides_by_zero() {
    let config = th_config();
    let global_state = GlobalState { total_mars_for_claimers: 0 };
    let err = execute_transfer_mars(&config, &s("owner"), 0, 0, &global_state);
    assert!(matches!(err, Err(ContractError::Math(MathError::DivideByZero))));
}

#[test]
fn staking_then_unstaking_never_profits() {
    let config = th_config();
    let global_state = GlobalState { total_mars_for_claimers: 500_000 };
    // the pool's balance includes the 2_000_000 being staked
    let stake = execute_stake(&global_state, &s("mars_token"), s("staker"), None, 2_000_000, tokens(4_000_000, 1_000_000)).unwrap();
    let minted = stake.mint_amount;
    let unstake = execute_unstake(
        &config,
        &global_state,
        &s("xmars_token"),
        s("staker"),
        None,
        minted,
        tokens(4_000_000, 1_000_000 + minted),
        None,
        1,
        1,
    )
    .unwrap();
    assert!(unstake.claim.amount <= 2_000_000);
    assert_eq!(unstake.claim.amount, 1_999_999);
}
