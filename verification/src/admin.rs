//! The red bank's administration: its configuration and the creation and update of markets.
use vstd::prelude::*;
use crate::decimal::Decimal;
use crate::error::{ContractError, Record};
use crate::interest_rates::{spec_apply_accumulated_interests, spec_update_interest_rates};
use crate::market::{Config, InterestRateModel, Market, spec_market_validation, spec_param_le_one, ParamName};
use crate::red_bank::{
    RedBankEvent, RedBankMsg, accrue_interests, interests_updated_event, refresh_interest_rates, reward_msgs,
};
use crate::state::GlobalState;

verus! {

/// Configuration fields; at instantiation all must be given, on update the given ones
/// replace the stored ones. Addresses are already validated.
#[derive(Clone, Debug)]
pub struct CreateOrUpdateConfig {
    pub owner: Option<String>,
    pub address_provider_address: Option<String>,
    pub ma_token_code_id: Option<u64>,
    pub close_factor: Option<Decimal>,
}

/// The red bank's configuration and global state at instantiation.
pub fn instantiate(msg: CreateOrUpdateConfig) -> (r: Result<(Config, GlobalState), ContractError>)
    ensures
        (msg.owner is None || msg.address_provider_address is None || msg.ma_token_code_id is None || msg.close_factor is None)
            ==> r == Err::<(Config, GlobalState), ContractError>(ContractError::InstantiateParamsUnavailable),
        r is Ok <==> msg.owner is Some && msg.address_provider_address is Some && msg.ma_token_code_id is Some
            && msg.close_factor is Some && msg.close_factor.unwrap().val() <= crate::decimal::DECIMAL_FRACTIONAL,
        (msg.owner is Some && msg.address_provider_address is Some && msg.ma_token_code_id is Some && msg.close_factor is Some
            && !(r is Ok)) ==> r == Err::<(Config, GlobalState), ContractError>(ContractError::Validation(
                spec_param_le_one(msg.close_factor.unwrap(), ParamName::CloseFactor)->Err_0)),
        r matches Ok((c, g)) ==> {
            &&& c == Config {
                owner: msg.owner.unwrap(),
                address_provider_address: msg.address_provider_address.unwrap(),
                ma_token_code_id: msg.ma_token_code_id.unwrap(),
                close_factor: msg.close_factor.unwrap(),
            }
            &&& g.market_count == 0
        },
{
    let CreateOrUpdateConfig { owner, address_provider_address, ma_token_code_id, close_factor } = msg;
    let (owner, address_provider_address, ma_token_code_id, close_factor) = match (owner, address_provider_address, ma_token_code_id, close_factor) {
        (Some(a), Some(b), Some(c), Some(d)) => (a, b, c, d),
        _ => return Err(ContractError::InstantiateParamsUnavailable),
    };
    let config = Config { owner, address_provider_address, ma_token_code_id, close_factor };
    match config.validate() {
        Ok(()) => {},
        Err(e) => return Err(ContractError::Validation(e)),
    }
    Ok((config, GlobalState { market_count: 0 }))
}

/// Updates the configuration (owner only): given fields replace stored ones.
pub fn update_config(config: Config, sender: &String, new_config: CreateOrUpdateConfig) -> (r: Result<Config, ContractError>)
    ensures
        sender@ != config.owner@ ==> r == Err::<Config, ContractError>(ContractError::Unauthorized),
        ({
            let c = Config {
                owner: match new_config.owner { Some(o) => o, None => config.owner },
                address_provider_address: match new_config.address_provider_address { Some(a) => a, None => config.address_provider_address },
                ma_token_code_id: match new_config.ma_token_code_id { Some(i) => i, None => config.ma_token_code_id },
                close_factor: match new_config.close_factor { Some(f) => f, None => config.close_factor },
            };
            &&& (r is Ok <==> sender@ == config.owner@ && c.valid())
            &&& (sender@ == config.owner@ && !c.valid() ==> r == Err::<Config, ContractError>(ContractError::Validation(
                spec_param_le_one(c.close_factor, ParamName::CloseFactor)->Err_0)))
            &&& (r matches Ok(n) ==> n == c)
        }),
{
    if *sender != config.owner {
        return Err(ContractError::Unauthorized);
    }
    let CreateOrUpdateConfig { owner, address_provider_address, ma_token_code_id, close_factor } = new_config;
    let mut config = config;
    config.owner = match owner {
        Some(o) => o,
        None => config.owner,
    };
    config.address_provider_address = match address_provider_address {
        Some(a) => a,
        None => config.address_provider_address,
    };
    config.ma_token_code_id = match ma_token_code_id {
        Some(i) => i,
        None => config.ma_token_code_id,
    };
    config.close_factor = match close_factor {
        Some(f) => f,
        None => config.close_factor,
    };
    match config.validate() {
        Ok(()) => {},
        Err(e) => return Err(ContractError::Validation(e)),
    }
    Ok(config)
}

/// Asset parameters; at initialization all but the deposit cap must be given, on update the
/// given ones replace the stored ones (the initial borrow rate is then ignored).
#[derive(Clone, Copy, Debug)]
pub struct InitOrUpdateAssetParams {
    pub initial_borrow_rate: Option<Decimal>,
    pub max_loan_to_value: Option<Decimal>,
    pub reserve_factor: Option<Decimal>,
    pub liquidation_threshold: Option<Decimal>,
    pub liquidation_bonus: Option<Decimal>,
    pub interest_rate_model: Option<InterestRateModel>,
    pub deposit_enabled: Option<bool>,
    pub borrow_enabled: Option<bool>,
    pub deposit_cap: Option<u128>,
}

pub open spec fn all_params_given(p: InitOrUpdateAssetParams) -> bool {
    &&& p.initial_borrow_rate is Some
    &&& p.max_loan_to_value is Some
    &&& p.reserve_factor is Some
    &&& p.liquidation_threshold is Some
    &&& p.liquidation_bonus is Some
    &&& p.interest_rate_model is Some
    &&& p.deposit_enabled is Some
    &&& p.borrow_enabled is Some
}

/// The market a creation at `block_time` with index `index` gives.
pub open spec fn spec_new_market(block_time: u64, index: u32, denom: String, ma_token_address: String, p: InitOrUpdateAssetParams) -> Market {
    Market {
        index: index,
        denom: denom,
        ma_token_address: ma_token_address,
        borrow_index: Decimal { atomics: crate::decimal::DECIMAL_FRACTIONAL },
        liquidity_index: Decimal { atomics: crate::decimal::DECIMAL_FRACTIONAL },
        borrow_rate: p.initial_borrow_rate.unwrap(),
        liquidity_rate: Decimal { atomics: 0 },
        max_loan_to_value: p.max_loan_to_value.unwrap(),
        reserve_factor: p.reserve_factor.unwrap(),
        indexes_last_updated: block_time,
        debt_total_scaled: 0,
        liquidation_threshold: p.liquidation_threshold.unwrap(),
        liquidation_bonus: p.liquidation_bonus.unwrap(),
        interest_rate_model: p.interest_rate_model.unwrap(),
        deposit_enabled: p.deposit_enabled.unwrap(),
        borrow_enabled: p.borrow_enabled.unwrap(),
        // if not specified, deposit cap is set to unlimited
        deposit_cap: match p.deposit_cap { Some(c) => c, None => u128::MAX },
    }
}

/// Initializes a new market.
pub fn create_market(block_time: u64, index: u32, denom: &String, params: InitOrUpdateAssetParams) -> (r: Result<Market, ContractError>)
    ensures
        !all_params_given(params) ==> r == Err::<Market, ContractError>(ContractError::InstantiateParamsUnavailable),
        all_params_given(params) ==> {
            let m = spec_new_market(block_time, index, *denom, vstd::pervasive::arbitrary::<String>(), params);
            &&& (r is Ok <==> m.valid())
            &&& (!m.valid() ==> r == Err::<Market, ContractError>(ContractError::Validation(spec_market_validation(m)->Err_0)))
            &&& (r matches Ok(n) ==> n == spec_new_market(block_time, index, *denom, n.ma_token_address, params)
                    && n.ma_token_address@.len() == 0)
        },
{
    let InitOrUpdateAssetParams {
        initial_borrow_rate,
        max_loan_to_value,
        reserve_factor,
        liquidation_threshold,
        liquidation_bonus,
        interest_rate_model,
        deposit_enabled,
        borrow_enabled,
        deposit_cap,
    } = params;
    let (borrow_rate, max_loan_to_value, reserve_factor, liquidation_threshold) =
        match (initial_borrow_rate, max_loan_to_value, reserve_factor, liquidation_threshold) {
            (Some(a), Some(b), Some(c), Some(d)) => (a, b, c, d),
            _ => return Err(ContractError::InstantiateParamsUnavailable),
        };
    let (liquidation_bonus, interest_rate_model, deposit_enabled, borrow_enabled) =
        match (liquidation_bonus, interest_rate_model, deposit_enabled, borrow_enabled) {
            (Some(a), Some(b), Some(c), Some(d)) => (a, b, c, d),
            _ => return Err(ContractError::InstantiateParamsUnavailable),
        };
    let new_market = Market {
        index,
        denom: denom.clone(),
        ma_token_address: String::new(),
        borrow_index: Decimal::one(),
        liquidity_index: Decimal::one(),
        borrow_rate,
        liquidity_rate: Decimal::zero(),
        max_loan_to_value,
        reserve_factor,
        indexes_last_updated: block_time,
        debt_total_scaled: 0,
        liquidation_threshold,
        liquidation_bonus,
        interest_rate_model,
        deposit_enabled,
        borrow_enabled,
        deposit_cap: match deposit_cap {
            Some(c) => c,
            None => u128::MAX,
        },
    };
    proof {
        assert(spec_market_validation(new_market) == spec_market_validation(
            spec_new_market(block_time, index, *denom, vstd::pervasive::arbitrary::<String>(), params)));
    }
    match new_market.validate() {
        Ok(()) => {},
        Err(e) => return Err(ContractError::Validation(e)),
    }
    Ok(new_market)
}


/// The maToken an asset's market is created with: the instantiation the caller sends.
#[derive(Clone, Debug)]
pub struct MaTokenInit {
    /// The code id the maToken is instantiated from
    pub code_id: u64,
    /// `Mars <symbol> Liquidity Token`
    pub name: String,
    /// `ma<symbol>`, also the instantiation's label
    pub symbol: String,
    pub label: String,
    pub decimals: u8,
    /// The marketing project, `Mars Protocol`
    pub project: String,
    /// `Interest earning token representing deposits for <symbol>`
    pub description: String,
}

/// The maToken instantiation for an asset with the given symbol.
pub open spec fn spec_ma_token_init(code_id: u64, symbol: Seq<char>) -> (u64, Seq<char>, Seq<char>, Seq<char>, u8, Seq<char>, Seq<char>) {
    (code_id, "Mars "@ + symbol + " Liquidity Token"@, "ma"@ + symbol, "ma"@ + symbol, 6u8, "Mars Protocol"@,
        "Interest earning token representing deposits for "@ + symbol)
}

/// Builds the maToken instantiation for an asset with the given symbol.
pub fn build_ma_token_init(code_id: u64, symbol: &String) -> (r: MaTokenInit)
    ensures
        (r.code_id, r.name@, r.symbol@, r.label@, r.decimals, r.project@, r.description@) == spec_ma_token_init(code_id, symbol@),
{
    let mut name = "Mars ".to_owned();
    name.append(symbol.as_str());
    name.append(" Liquidity Token");
    let mut token_symbol = "ma".to_owned();
    token_symbol.append(symbol.as_str());
    let label = token_symbol.clone();
    let mut description = "Interest earning token representing deposits for ".to_owned();
    description.append(symbol.as_str());
    MaTokenInit {
        code_id,
        name,
        symbol: token_symbol,
        label,
        decimals: 6,
        project: "Mars Protocol".to_owned(),
        description,
    }
}

/// What initializing an asset changes.
#[derive(Debug)]
pub struct InitAssetOutcome {
    /// The new market, stored under the denom and indexed by `market.index`
    pub market: Market,
    /// The global state with the market counted
    pub global_state: GlobalState,
    /// The symbol for the asset's maToken (`ma` + symbol) and its name
    pub symbol: String,
    /// The asset's maToken, to instantiate
    pub ma_token: MaTokenInit,
}

/// Initializes an asset's market (owner only); refused when the asset already has one.
/// The caller then instantiates the asset's maToken, which registers itself through
/// `init_asset_token_callback`.
///
/// `existing` is the market stored under `denom`, if any.
pub fn init_asset(
    config: &Config,
    sender: &String,
    global_state: Option<GlobalState>,
    existing: Option<Market>,
    denom: &String,
    params: InitOrUpdateAssetParams,
    asset_symbol: Option<String>,
    block_time: u64,
) -> (r: Result<InitAssetOutcome, ContractError>)
    ensures
        sender@ != config.owner@ ==> r == Err::<InitAssetOutcome, ContractError>(ContractError::Unauthorized),
        sender@ == config.owner@ && global_state is None ==> r == Err::<InitAssetOutcome, ContractError>(ContractError::NotFound(Record::GlobalState)),
        sender@ == config.owner@ && global_state is Some && existing is Some ==> r == Err::<InitAssetOutcome, ContractError>(ContractError::AssetAlreadyInitialized),
        r is Ok <==> {
            &&& sender@ == config.owner@
            &&& global_state matches Some(g)
            &&& existing is None
            &&& all_params_given(params)
            &&& spec_new_market(block_time, g.market_count, *denom, vstd::pervasive::arbitrary::<String>(), params).valid()
            &&& g.market_count < u32::MAX
        },
        r matches Ok(o) ==> {
            let g = global_state.unwrap();
            &&& o.market == spec_new_market(block_time, g.market_count, *denom, o.market.ma_token_address, params)
            &&& o.market.ma_token_address@.len() == 0
            &&& o.global_state.market_count == g.market_count + 1
            &&& o.symbol == (match asset_symbol { Some(s) => s, None => *denom })
            &&& (o.ma_token.code_id, o.ma_token.name@, o.ma_token.symbol@, o.ma_token.label@, o.ma_token.decimals,
                o.ma_token.project@, o.ma_token.description@) == spec_ma_token_init(config.ma_token_code_id, o.symbol@)
        },
{
    if *sender != config.owner {
        return Err(ContractError::Unauthorized);
    }
    let mut money_market = match global_state {
        Some(g) => g,
        None => return Err(ContractError::NotFound(Record::GlobalState)),
    };
    match existing {
        Some(_) => return Err(ContractError::AssetAlreadyInitialized),
        None => {},
    }
    let market_idx = money_market.market_count;
    let new_market = create_market(block_time, market_idx, denom, params)?;
    // Increment market count
    if money_market.market_count == u32::MAX {
        return Err(ContractError::Math(crate::decimal::MathError::Overflow));
    }
    money_market.market_count = money_market.market_count + 1;
    let symbol = match asset_symbol {
        Some(s) => s,
        None => denom.clone(),
    };
    let ma_token = build_ma_token_init(config.ma_token_code_id, &symbol);
    Ok(InitAssetOutcome { market: new_market, global_state: money_market, symbol, ma_token })
}

/// Registers the calling maToken as the market's token; only possible once.
pub fn init_asset_token_callback(market: Option<Market>, sender: &String) -> (r: Result<Market, ContractError>)
    ensures
        market is None ==> r == Err::<Market, ContractError>(ContractError::NotFound(Record::Market)),
        market matches Some(m) ==> {
            &&& (r is Ok <==> m.ma_token_address@.len() == 0)
            &&& (m.ma_token_address@.len() != 0 ==> r == Err::<Market, ContractError>(ContractError::Unauthorized))
            &&& (r matches Ok(n) ==> n == Market { ma_token_address: *sender, ..m })
        },
{
    let mut market = match market {
        Some(m) => m,
        None => return Err(ContractError::NotFound(Record::Market)),
    };
    if market.ma_token_address.as_str().is_empty() {
        market.ma_token_address = sender.clone();
        Ok(market)
    } else {
        // Can do this only once
        Err(ContractError::Unauthorized)
    }
}

/// The market with the given parameters replacing the stored ones.
pub open spec fn spec_updated_params(m: Market, p: InitOrUpdateAssetParams) -> Market {
    Market {
        max_loan_to_value: match p.max_loan_to_value { Some(v) => v, None => m.max_loan_to_value },
        reserve_factor: match p.reserve_factor { Some(v) => v, None => m.reserve_factor },
        liquidation_threshold: match p.liquidation_threshold { Some(v) => v, None => m.liquidation_threshold },
        liquidation_bonus: match p.liquidation_bonus { Some(v) => v, None => m.liquidation_bonus },
        interest_rate_model: match p.interest_rate_model { Some(v) => v, None => m.interest_rate_model },
        deposit_enabled: match p.deposit_enabled { Some(v) => v, None => m.deposit_enabled },
        borrow_enabled: match p.borrow_enabled { Some(v) => v, None => m.borrow_enabled },
        deposit_cap: match p.deposit_cap { Some(v) => v, None => m.deposit_cap },
        ..m
    }
}

/// What updating an asset changes.
#[derive(Debug)]
pub struct UpdateAssetOutcome {
    pub market: Market,
    pub messages: Vec<RedBankMsg>,
    pub events: Vec<RedBankEvent>,
}

/// Updates an asset's parameters (owner only). When the reserve factor changes or a new
/// interest rate model is given, interest is first accrued under the old parameters and the
/// rates are recomputed under the new ones.
///
/// `contract_balance` is the contract's balance of the asset.
pub fn update_asset(
    config: &Config,
    sender: &String,
    market: Option<Market>,
    denom: &String,
    params: InitOrUpdateAssetParams,
    contract_balance: u128,
    rewards_collector: &String,
    timestamp: u64,
) -> (r: Result<UpdateAssetOutcome, ContractError>)
    ensures
        sender@ != config.owner@ ==> r == Err::<UpdateAssetOutcome, ContractError>(ContractError::Unauthorized),
        sender@ == config.owner@ && market is None ==> r == Err::<UpdateAssetOutcome, ContractError>(ContractError::AssetNotInitialized),
        market matches Some(m) ==> {
            let should_update = (params.reserve_factor matches Some(rf) && rf != m.reserve_factor) || params.interest_rate_model is Some;
            &&& (r is Ok <==> {
                &&& sender@ == config.owner@
                &&& if should_update {
                    &&& spec_apply_accumulated_interests(m, timestamp) matches Some((m1, _))
                    &&& spec_updated_params(m1, params).valid()
                    &&& spec_update_interest_rates(spec_updated_params(m1, params), contract_balance, 0, timestamp) is Some
                } else {
                    spec_updated_params(m, params).valid()
                }
            })
            &&& (r matches Ok(o) ==> if should_update {
                let (m1, mint) = spec_apply_accumulated_interests(m, timestamp).unwrap();
                &&& spec_update_interest_rates(spec_updated_params(m1, params), contract_balance, 0, timestamp) == Some(o.market)
                &&& o.messages@ == reward_msgs(m1, *rewards_collector, mint)
                &&& o.events@ == seq![interests_updated_event(*denom, o.market)]
            } else {
                &&& o.market == spec_updated_params(m, params)
                &&& o.messages@.len() == 0
                &&& o.events@.len() == 0
            })
        },
{
    if *sender != config.owner {
        return Err(ContractError::Unauthorized);
    }
    let mut market = match market {
        Some(m) => m,
        None => return Err(ContractError::AssetNotInitialized),
    };
    // If reserve factor or interest rates are updated we update indexes with current values
    // before applying the change to prevent applying this new params to a period where they
    // were not valid yet. Interests rates are recalculated after changes are applied.
    let should_update_interest_rates = (match params.reserve_factor {
        Some(rf) => rf.atomics != market.reserve_factor.atomics,
        None => false,
    }) || params.interest_rate_model.is_some();

    let mut messages: Vec<RedBankMsg> = Vec::new();
    let mut events: Vec<RedBankEvent> = Vec::new();
    if should_update_interest_rates {
        accrue_interests(timestamp, rewards_collector, &mut market, &mut messages)?;
    }
    market.max_loan_to_value = match params.max_loan_to_value { Some(v) => v, None => market.max_loan_to_value };
    market.reserve_factor = match params.reserve_factor { Some(v) => v, None => market.reserve_factor };
    market.liquidation_threshold = match params.liquidation_threshold { Some(v) => v, None => market.liquidation_threshold };
    market.liquidation_bonus = match params.liquidation_bonus { Some(v) => v, None => market.liquidation_bonus };
    market.interest_rate_model = match params.interest_rate_model { Some(v) => v, None => market.interest_rate_model };
    market.deposit_enabled = match params.deposit_enabled { Some(v) => v, None => market.deposit_enabled };
    market.borrow_enabled = match params.borrow_enabled { Some(v) => v, None => market.borrow_enabled };
    market.deposit_cap = match params.deposit_cap { Some(v) => v, None => market.deposit_cap };
    match market.validate() {
        Ok(()) => {},
        Err(e) => return Err(ContractError::Validation(e)),
    }
    if should_update_interest_rates {
        refresh_interest_rates(contract_balance, 0, timestamp, denom, &mut market, &mut events)?;
    }
    Ok(UpdateAssetOutcome { market, messages, events })
}

} // verus!
