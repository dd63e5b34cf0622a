//! The protocol rewards collector: it receives the protocol's share of interest, swaps it
//! into the assets of the safety fund and the fee collector along configured routes of
//! liquidity pools, and sends them on over IBC.
use vstd::prelude::*;
use crate::decimal::{Decimal, MathError, DECIMAL_FRACTIONAL, mul_floor, spec_mul_floor};
use crate::market::{ParamName, ValidationError, decimal_param_le_one, spec_param_le_one};

verus! {

/// The collector's configuration. Addresses are already validated.
#[derive(Debug)]
pub struct Config {
    pub owner: String,
    pub address_provider: String,
    /// Share of the collected fees that goes to the safety fund
    pub safety_tax_rate: Decimal,
    /// The asset the safety fund's share is swapped into
    pub safety_fund_denom: String,
    /// The asset the fee collector's share is swapped into
    pub fee_collector_denom: String,
    /// The IBC channel to the hub
    pub channel_id: String,
    pub timeout_revision: u64,
    pub timeout_blocks: u64,
    pub timeout_seconds: u64,
}

/// Configuration fields; at instantiation all must be given, on update the given ones
/// replace the stored ones.
#[derive(Debug)]
pub struct CreateOrUpdateConfig {
    pub owner: Option<String>,
    pub address_provider: Option<String>,
    pub safety_tax_rate: Option<Decimal>,
    pub safety_fund_denom: Option<String>,
    pub fee_collector_denom: Option<String>,
    pub channel_id: Option<String>,
    pub timeout_revision: Option<u64>,
    pub timeout_blocks: Option<u64>,
    pub timeout_seconds: Option<u64>,
}

/// The queries the collector answers.
#[derive(Clone, Debug)]
pub enum QueryMsg {
    /// The configuration
    Config {},
    /// The route from one denom to another
    Route { denom_in: String, denom_out: String },
    /// The routes in key order, after `start_after`, at most `limit` of them
    Routes { start_after: Option<(String, String)>, limit: Option<u32> },
}

/// One hop of a swap route: a pool and the denom it swaps into.
#[derive(Clone, Debug)]
pub struct Step {
    pub pool_id: u64,
    pub denom_out: String,
}

impl Step {
    pub fn copy(&self) -> (r: Step)
        ensures
            r == *self,
    {
        Step { pool_id: self.pool_id, denom_out: self.denom_out.clone() }
    }
}

/// Why a swap route was refused.
#[derive(Clone, Debug, PartialEq, Eq)]
pub enum RouteError {
    /// The route has no step
    Empty,
    /// The pool of a step does not exist
    PoolNotFound { step: usize, pool_id: u64 },
    /// The pool of a step does not hold the denom it is to swap from
    MissingInputDenom { step: usize, pool_id: u64, denom: String },
    /// The pool of a step does not hold the denom it is to swap into
    MissingOutputDenom { step: usize, pool_id: u64, denom: String },
    /// The route ends in the denom it starts from
    SameInputAndOutput { denom: String },
    /// The route ends in another denom than the one wanted
    OutputMismatch { route_output: String, desired: String },
}

#[derive(Clone, Debug, PartialEq, Eq)]
pub enum ContractError {
    Math(MathError),
    Validation(ValidationError),
    Unauthorized,
    InstantiateParamsUnavailable,
    InvalidSwapRoute(RouteError),
    /// No route is stored from `denom_in` to `denom_out`
    RouteNotFound { denom_in: String, denom_out: String },
    AssetNotEnabledForDistribution { denom: String },
    AmountToDistributeTooLarge { amount: u128, balance: u128 },
}

impl Config {
    /// The tax rate is a share: at most one.
    pub open spec fn valid(self) -> bool {
        self.safety_tax_rate.val() <= DECIMAL_FRACTIONAL
    }

    pub fn validate(&self) -> (r: Result<(), ValidationError>)
        ensures
            r == spec_param_le_one(self.safety_tax_rate, ParamName::SafetyTaxRate),
            r is Ok <==> self.valid(),
    {
        decimal_param_le_one(self.safety_tax_rate, ParamName::SafetyTaxRate)
    }
}

/// The collector's configuration at instantiation: every field must be given, and the tax
/// rate must be valid.
pub fn instantiate(msg: CreateOrUpdateConfig) -> (r: Result<Config, ContractError>)
    ensures
        ({
            let given = msg.owner is Some && msg.address_provider is Some && msg.safety_tax_rate is Some
                && msg.safety_fund_denom is Some && msg.fee_collector_denom is Some && msg.channel_id is Some
                && msg.timeout_revision is Some && msg.timeout_blocks is Some && msg.timeout_seconds is Some;
            &&& !given ==> r == Err::<Config, ContractError>(ContractError::InstantiateParamsUnavailable)
            &&& (r is Ok <==> given && msg.safety_tax_rate.unwrap().val() <= DECIMAL_FRACTIONAL)
            &&& (given && msg.safety_tax_rate.unwrap().val() > DECIMAL_FRACTIONAL) ==> r == Err::<Config, ContractError>(
                ContractError::Validation(spec_param_le_one(msg.safety_tax_rate.unwrap(), ParamName::SafetyTaxRate)->Err_0))
            &&& r matches Ok(c) ==> (c == Config {
                owner: msg.owner.unwrap(),
                address_provider: msg.address_provider.unwrap(),
                safety_tax_rate: msg.safety_tax_rate.unwrap(),
                safety_fund_denom: msg.safety_fund_denom.unwrap(),
                fee_collector_denom: msg.fee_collector_denom.unwrap(),
                channel_id: msg.channel_id.unwrap(),
                timeout_revision: msg.timeout_revision.unwrap(),
                timeout_blocks: msg.timeout_blocks.unwrap(),
                timeout_seconds: msg.timeout_seconds.unwrap(),
            })
        }),
{
    let CreateOrUpdateConfig {
        owner, address_provider, safety_tax_rate, safety_fund_denom, fee_collector_denom, channel_id,
        timeout_revision, timeout_blocks, timeout_seconds,
    } = msg;
    let config = match (owner, address_provider, safety_tax_rate, safety_fund_denom, fee_collector_denom, channel_id,
        timeout_revision, timeout_blocks, timeout_seconds) {
        (Some(owner), Some(address_provider), Some(safety_tax_rate), Some(safety_fund_denom), Some(fee_collector_denom),
            Some(channel_id), Some(timeout_revision), Some(timeout_blocks), Some(timeout_seconds)) => Config {
            owner, address_provider, safety_tax_rate, safety_fund_denom, fee_collector_denom, channel_id,
            timeout_revision, timeout_blocks, timeout_seconds,
        },
        _ => { return Err(ContractError::InstantiateParamsUnavailable); },
    };
    match config.validate() {
        Ok(()) => Ok(config),
        Err(e) => Err(ContractError::Validation(e)),
    }
}

/// The configuration with the given fields of `new_config` in place of the stored ones.
pub open spec fn spec_updated_config(c: Config, n: CreateOrUpdateConfig) -> Config {
    Config {
        owner: match n.owner { Some(v) => v, None => c.owner },
        address_provider: match n.address_provider { Some(v) => v, None => c.address_provider },
        safety_tax_rate: match n.safety_tax_rate { Some(v) => v, None => c.safety_tax_rate },
        safety_fund_denom: match n.safety_fund_denom { Some(v) => v, None => c.safety_fund_denom },
        fee_collector_denom: match n.fee_collector_denom { Some(v) => v, None => c.fee_collector_denom },
        channel_id: match n.channel_id { Some(v) => v, None => c.channel_id },
        timeout_revision: match n.timeout_revision { Some(v) => v, None => c.timeout_revision },
        timeout_blocks: match n.timeout_blocks { Some(v) => v, None => c.timeout_blocks },
        timeout_seconds: match n.timeout_seconds { Some(v) => v, None => c.timeout_seconds },
    }
}

/// Updates the configuration (owner only); the result must be valid.
pub fn update_config(config: Config, sender: &String, new_config: CreateOrUpdateConfig) -> (r: Result<Config, ContractError>)
    ensures
        sender@ != config.owner@ ==> r == Err::<Config, ContractError>(ContractError::Unauthorized),
        ({
            let c = spec_updated_config(config, new_config);
            &&& (r is Ok <==> sender@ == config.owner@ && c.valid())
            &&& (sender@ == config.owner@ && !c.valid()) ==> r == Err::<Config, ContractError>(
                ContractError::Validation(spec_param_le_one(c.safety_tax_rate, ParamName::SafetyTaxRate)->Err_0))
            &&& r matches Ok(n) ==> n == c
        }),
{
    if *sender != config.owner {
        return Err(ContractError::Unauthorized);
    }
    let CreateOrUpdateConfig {
        owner, address_provider, safety_tax_rate, safety_fund_denom, fee_collector_denom, channel_id,
        timeout_revision, timeout_blocks, timeout_seconds,
    } = new_config;
    let Config {
        owner: c_owner, address_provider: c_provider, safety_tax_rate: c_rate, safety_fund_denom: c_sf,
        fee_collector_denom: c_fc, channel_id: c_channel, timeout_revision: c_rev, timeout_blocks: c_blocks,
        timeout_seconds: c_secs,
    } = config;
    let cfg = Config {
        owner: match owner { Some(v) => v, None => c_owner },
        address_provider: match address_provider { Some(v) => v, None => c_provider },
        safety_tax_rate: match safety_tax_rate { Some(v) => v, None => c_rate },
        safety_fund_denom: match safety_fund_denom { Some(v) => v, None => c_sf },
        fee_collector_denom: match fee_collector_denom { Some(v) => v, None => c_fc },
        channel_id: match channel_id { Some(v) => v, None => c_channel },
        timeout_revision: match timeout_revision { Some(v) => v, None => c_rev },
        timeout_blocks: match timeout_blocks { Some(v) => v, None => c_blocks },
        timeout_seconds: match timeout_seconds { Some(v) => v, None => c_secs },
    };
    match cfg.validate() {
        Ok(()) => Ok(cfg),
        Err(e) => Err(ContractError::Validation(e)),
    }
}

/// Only the owner may act.
pub fn assert_owner(config: &Config, sender: &String) -> (r: Result<(), ContractError>)
    ensures
        r is Ok <==> sender@ == config.owner@,
        r is Err ==> r == Err::<(), ContractError>(ContractError::Unauthorized),
{
    if *sender != config.owner {
        Err(ContractError::Unauthorized)
    } else {
        Ok(())
    }
}

/// Passes a message on for the contract to send (owner only).
pub fn execute_cosmos_msg<M>(config: &Config, sender: &String, msg: M) -> (r: Result<M, ContractError>)
    ensures
        r is Ok <==> sender@ == config.owner@,
        r is Err ==> r == Err::<M, ContractError>(ContractError::Unauthorized),
        r matches Ok(m) ==> m == msg,
{
    assert_owner(config, sender)?;
    Ok(msg)
}

/// A pool holds the denom.
pub open spec fn pool_has(pool: Seq<String>, denom: Seq<char>) -> bool {
    exists|k: int| 0 <= k < pool.len() && (#[trigger] pool[k])@ == denom
}

/// Whether the pool's assets include `denom`.
pub fn has_denom(pool: &Vec<String>, denom: &String) -> (r: bool)
    ensures
        r == pool_has(pool@, denom@),
{
    let n = pool.len();
    let mut i: usize = 0;
    while i < n
        invariant
            n == pool@.len(),
            i <= n,
            forall|k: int| 0 <= k < i ==> (#[trigger] pool@[k])@ != denom@,
        decreases n - i,
    {
        if pool[i] == *denom {
            return true;
        }
        i = i + 1;
    }
    false
}

/// Walks the route from step `i`, the denom in hand being `prev`: each step's pool must hold
/// both the denom in hand and the step's output. The denom the route ends in.
pub open spec fn spec_walk(steps: Seq<Step>, pools: Seq<Vec<String>>, i: int, prev: String) -> Result<String, RouteError>
    decreases steps.len() - i,
{
    if i < 0 || i >= steps.len() {
        Ok(prev)
    } else if i >= pools.len() {
        Err(RouteError::PoolNotFound { step: i as usize, pool_id: steps[i].pool_id })
    } else if !pool_has(pools[i]@, prev@) {
        Err(RouteError::MissingInputDenom { step: i as usize, pool_id: steps[i].pool_id, denom: prev })
    } else if !pool_has(pools[i]@, steps[i].denom_out@) {
        Err(RouteError::MissingOutputDenom { step: i as usize, pool_id: steps[i].pool_id, denom: steps[i].denom_out })
    } else {
        spec_walk(steps, pools, i + 1, steps[i].denom_out)
    }
}

/// The checks a route from `denom_in` to `denom_out` must pass, in order.
pub open spec fn spec_route_check(steps: Seq<Step>, pools: Seq<Vec<String>>, denom_in: String, denom_out: String) -> Result<(), RouteError> {
    if steps.len() == 0 {
        Err(RouteError::Empty)
    } else {
        match spec_walk(steps, pools, 0, denom_in) {
            Err(e) => Err(e),
            Ok(last) => if denom_in@ == last@ {
                Err(RouteError::SameInputAndOutput { denom: denom_in })
            } else if last@ != denom_out@ {
                Err(RouteError::OutputMismatch { route_output: last, desired: denom_out })
            } else {
                Ok(())
            },
        }
    }
}

/// The swap that starts a route: the first pool, from the offered denom.
#[derive(Clone, Debug)]
pub struct Swap {
    pub pool_id: u64,
    pub denom_in: String,
    pub denom_out: String,
}

/// A swap of an exact amount along a route.
#[derive(Debug)]
pub struct SwapMsg {
    pub first: Swap,
    /// The steps after the first
    pub route: Vec<Step>,
    /// The exact amount offered
    pub amount: u128,
    /// The least output accepted
    pub min_output: u128,
}

/// A route of swaps, pool by pool.
#[derive(Debug)]
pub struct SwapInstruction(pub Vec<Step>);

impl SwapInstruction {
    /// The swap steps.
    pub fn steps(&self) -> (r: &Vec<Step>)
        ensures
            r@ == self.0@,
    {
        &self.0
    }

    /// Checks the route from `denom_in` to `denom_out` against the assets of its pools
    /// (`pools[i]`: the denoms of the pool of step `i`, missing when the pool does not exist).
    pub fn validate(&self, pools: &Vec<Vec<String>>, denom_in: &String, denom_out: &String) -> (r: Result<(), ContractError>)
        ensures
            ({
                let expected = spec_route_check(self.0@, pools@, *denom_in, *denom_out);
                &&& (r is Ok <==> expected is Ok)
                &&& r matches Err(e) ==> (expected matches Err(re) && e == ContractError::InvalidSwapRoute(re))
            }),
    {
        let steps = self.steps();
        let n = steps.len();
        if n == 0 {
            return Err(ContractError::InvalidSwapRoute(RouteError::Empty));
        }
        let mut prev_denom_out = denom_in.clone();
        let mut i: usize = 0;
        while i < n
            invariant
                n == steps@.len(),
                steps@ == self.0@,
                i <= n,
                spec_walk(steps@, pools@, 0, *denom_in) == spec_walk(steps@, pools@, i as int, prev_denom_out),
            decreases n - i,
        {
            let step = &steps[i];
            if i >= pools.len() {
                return Err(ContractError::InvalidSwapRoute(RouteError::PoolNotFound { step: i, pool_id: step.pool_id }));
            }
            let pool = &pools[i];
            if !has_denom(pool, &prev_denom_out) {
                return Err(ContractError::InvalidSwapRoute(RouteError::MissingInputDenom {
                    step: i,
                    pool_id: step.pool_id,
                    denom: prev_denom_out,
                }));
            }
            if !has_denom(pool, &step.denom_out) {
                return Err(ContractError::InvalidSwapRoute(RouteError::MissingOutputDenom {
                    step: i,
                    pool_id: step.pool_id,
                    denom: step.denom_out.clone(),
                }));
            }
            prev_denom_out = step.denom_out.clone();
            i = i + 1;
        }
        if *denom_in == prev_denom_out {
            return Err(ContractError::InvalidSwapRoute(RouteError::SameInputAndOutput { denom: denom_in.clone() }));
        }
        if prev_denom_out != *denom_out {
            return Err(ContractError::InvalidSwapRoute(RouteError::OutputMismatch {
                route_output: prev_denom_out,
                desired: denom_out.clone(),
            }));
        }
        Ok(())
    }

    /// The swap of exactly `amount` of `denom_in` along the route, accepting any output.
    pub fn build_swap_msg(&self, denom_in: &String, amount: u128) -> (r: Result<SwapMsg, ContractError>)
        ensures
            r is Ok <==> self.0@.len() > 0,
            r is Err ==> r == Err::<SwapMsg, ContractError>(ContractError::InvalidSwapRoute(RouteError::Empty)),
            r matches Ok(m) ==> {
                &&& m.first == (Swap { pool_id: self.0@[0].pool_id, denom_in: *denom_in, denom_out: self.0@[0].denom_out })
                &&& m.route@ == self.0@.drop_first()
                &&& m.amount == amount
                &&& m.min_output == 0
            },
    {
        let steps = self.steps();
        let n = steps.len();
        if n == 0 {
            return Err(ContractError::InvalidSwapRoute(RouteError::Empty));
        }
        let first = Swap { pool_id: steps[0].pool_id, denom_in: denom_in.clone(), denom_out: steps[0].denom_out.clone() };
        let mut route: Vec<Step> = Vec::new();
        let mut i: usize = 1;
        while i < n
            invariant
                n == steps@.len(),
                1 <= i <= n,
                route@ == steps@.subrange(1, i as int),
            decreases n - i,
        {
            route.push(steps[i].copy());
            proof {
                assert(route@ =~= steps@.subrange(1, i as int + 1));
            }
            i = i + 1;
        }
        proof {
            assert(steps@.subrange(1, n as int) =~= steps@.drop_first());
        }
        Ok(SwapMsg { first, route, amount, min_output: 0 })
    }
}

/// The amount to act on: the given amount, which may not exceed the balance, or the whole
/// balance when none is given.
pub fn unwrap_option_amount(balance: u128, amount: Option<u128>) -> (r: Result<u128, ContractError>)
    ensures
        amount is None ==> r == Ok::<u128, ContractError>(balance),
        amount matches Some(a) ==> (a <= balance ==> r == Ok::<u128, ContractError>(a))
            && (a > balance ==> r == Err::<u128, ContractError>(ContractError::AmountToDistributeTooLarge { amount: a, balance })),
{
    match amount {
        Some(a) => if a > balance {
            Err(ContractError::AmountToDistributeTooLarge { amount: a, balance })
        } else {
            Ok(a)
        },
        None => Ok(balance),
    }
}

/// The decimal digit `d` as a character.
pub open spec fn digit_char(d: int) -> char {
    (d + 48) as char
}

/// The decimal representation of `n`, without leading zeros.
pub open spec fn decimal_digits(n: nat) -> Seq<char>
    decreases n,
{
    if n < 10 {
        seq![digit_char(n as int)]
    } else {
        decimal_digits(n / 10).push(digit_char((n % 10) as int))
    }
}

/// Wrapper of `u128`'s `to_string`: its decimal representation.
#[verifier::external_body]
fn u128_to_string(n: u128) -> (r: String)
    ensures
        r@ == decimal_digits(n as nat),
{
    n.to_string()
}

/// An optional amount as text: its decimal digits, or `undefined`.
pub fn stringify_option_amount(amount: Option<u128>) -> (r: String)
    ensures
        amount matches Some(a) ==> r@ == decimal_digits(a as nat),
        amount is None ==> r@ == "undefined"@,
{
    match amount {
        Some(a) => u128_to_string(a),
        None => "undefined".to_owned(),
    }
}

/// How an amount to swap is split: the safety fund's share (the amount times the tax rate,
/// rounded down) and the rest for the fee collector.
pub open spec fn spec_split(amount: int, safety_tax_rate: Decimal) -> Option<(int, int)> {
    let safety = spec_mul_floor(amount, safety_tax_rate.val());
    if safety > u128::MAX || safety > amount {
        None
    } else {
        Some((safety, amount - safety))
    }
}

/// The swaps of one collected asset and how the amount was split.
#[derive(Debug)]
pub struct SwapAssetOutcome {
    pub amount_safety_fund: u128,
    pub amount_fee_collector: u128,
    pub messages: Vec<SwapMsg>,
}

/// Swaps `amount` of `denom` (all of the collector's `balance` when not given): the safety
/// fund's share along the stored route to the safety fund's denom, the rest along the route to
/// the fee collector's denom (`safety_fund_route`, `fee_collector_route`: the stored routes, if
/// any). A zero share is not swapped and needs no route.
pub fn swap_asset(
    config: &Config,
    denom: &String,
    balance: u128,
    amount: Option<u128>,
    safety_fund_route: Option<SwapInstruction>,
    fee_collector_route: Option<SwapInstruction>,
) -> (r: Result<SwapAssetOutcome, ContractError>)
    ensures
        (amount is Some && amount.unwrap() > balance) ==> r == Err::<SwapAssetOutcome, ContractError>(
            ContractError::AmountToDistributeTooLarge { amount: amount.unwrap(), balance }),
        ({
            let total = match amount { Some(a) => a, None => balance };
            let split = spec_split(total as int, config.safety_tax_rate);
            let sf_ok = split is Some && (split.unwrap().0 == 0
                || (safety_fund_route is Some && safety_fund_route.unwrap().0@.len() > 0));
            let fc_ok = split is Some && (split.unwrap().1 == 0
                || (fee_collector_route is Some && fee_collector_route.unwrap().0@.len() > 0));
            &&& (r is Ok <==> total <= balance && sf_ok && fc_ok)
            &&& (total <= balance && split is None) ==> r == Err::<SwapAssetOutcome, ContractError>(ContractError::Math(MathError::Overflow))
            &&& (total <= balance && split is Some && split.unwrap().0 != 0 && safety_fund_route is None)
                ==> r == Err::<SwapAssetOutcome, ContractError>(
                ContractError::RouteNotFound { denom_in: *denom, denom_out: config.safety_fund_denom })
            &&& (total <= balance && sf_ok && split.unwrap().1 != 0 && fee_collector_route is None)
                ==> r == Err::<SwapAssetOutcome, ContractError>(
                ContractError::RouteNotFound { denom_in: *denom, denom_out: config.fee_collector_denom })
            &&& r matches Ok(o) ==> {
                &&& split == Some((o.amount_safety_fund as int, o.amount_fee_collector as int))
                &&& o.amount_safety_fund + o.amount_fee_collector == total
                &&& o.messages@.len() == (if o.amount_safety_fund > 0 { 1int } else { 0 }) + (if o.amount_fee_collector > 0 { 1int } else { 0 })
                &&& o.amount_safety_fund > 0 ==> ({
                    let m = o.messages@[0];
                    &&& m.amount == o.amount_safety_fund
                    &&& m.first.pool_id == safety_fund_route.unwrap().0@[0].pool_id
                    &&& m.first.denom_out == safety_fund_route.unwrap().0@[0].denom_out
                    &&& m.route@ == safety_fund_route.unwrap().0@.drop_first()
                    &&& m.min_output == 0
                })
                &&& o.amount_fee_collector > 0 ==> ({
                    let m = o.messages@[o.messages@.len() - 1];
                    &&& m.amount == o.amount_fee_collector
                    &&& m.first.pool_id == fee_collector_route.unwrap().0@[0].pool_id
                    &&& m.first.denom_out == fee_collector_route.unwrap().0@[0].denom_out
                    &&& m.route@ == fee_collector_route.unwrap().0@.drop_first()
                    &&& m.min_output == 0
                })
                &&& forall|k: int| 0 <= k < o.messages@.len() ==> (#[trigger] o.messages@[k]).first.denom_in == *denom
            }
        }),
{
    let amount_to_swap = unwrap_option_amount(balance, amount)?;
    let amount_safety_fund = match mul_floor(amount_to_swap, config.safety_tax_rate) {
        Ok(v) => v,
        Err(e) => { return Err(ContractError::Math(e)); },
    };
    if amount_safety_fund > amount_to_swap {
        return Err(ContractError::Math(MathError::Overflow));
    }
    let amount_fee_collector = amount_to_swap - amount_safety_fund;
    let mut messages: Vec<SwapMsg> = Vec::new();
    if amount_safety_fund != 0 {
        let route = match safety_fund_route {
            Some(route) => route,
            None => {
                return Err(ContractError::RouteNotFound { denom_in: denom.clone(), denom_out: config.safety_fund_denom.clone() });
            },
        };
        messages.push(route.build_swap_msg(denom, amount_safety_fund)?);
    }
    if amount_fee_collector != 0 {
        let route = match fee_collector_route {
            Some(route) => route,
            None => {
                return Err(ContractError::RouteNotFound { denom_in: denom.clone(), denom_out: config.fee_collector_denom.clone() });
            },
        };
        messages.push(route.build_swap_msg(denom, amount_fee_collector)?);
    }
    Ok(SwapAssetOutcome { amount_safety_fund, amount_fee_collector, messages })
}

/// The safety fund's and the fee collector's shares add up to the amount swapped, and the
/// safety fund's is the amount times the tax rate, rounded down, whenever the rate is valid.
pub proof fn lemma_split_adds_up(amount: u128, safety_tax_rate: Decimal)
    requires
        safety_tax_rate.val() <= DECIMAL_FRACTIONAL,
    ensures
        spec_split(amount as int, safety_tax_rate) matches Some(s)
            && s.0 + s.1 == amount
            && s.0 == spec_mul_floor(amount as int, safety_tax_rate.val())
            && s.0 <= amount,
{
    assert(0 <= amount * safety_tax_rate.val() <= amount * DECIMAL_FRACTIONAL) by (nonlinear_arith)
        requires
            0 <= safety_tax_rate.val() <= DECIMAL_FRACTIONAL,
    ;
    crate::arith::lemma_div_monotone(amount * safety_tax_rate.val(), amount * DECIMAL_FRACTIONAL, DECIMAL_FRACTIONAL as int);
    crate::arith::lemma_mul_div_cancel(amount as int, DECIMAL_FRACTIONAL as int);
}

/// The module of the hub a collected asset goes to.
#[derive(Clone, Copy, Debug, PartialEq, Eq, Structural)]
pub enum Destination {
    SafetyFund,
    FeeCollector,
}

/// An IBC transfer of a collected asset to the hub.
#[derive(Debug)]
pub struct Distribution {
    pub destination: Destination,
    pub channel_id: String,
    pub denom: String,
    pub amount: u128,
    pub timeout_revision: u64,
    pub timeout_height: u64,
}

/// Sends `amount` of `denom` (all of the collector's `balance` when not given) to the hub:
/// the safety fund's denom to the safety fund, the fee collector's to the fee collector, with a
/// timeout of the configured number of blocks after the current block.
pub fn distribute_rewards(
    config: &Config,
    denom: &String,
    balance: u128,
    amount: Option<u128>,
    block_height: u64,
) -> (r: Result<Distribution, ContractError>)
    ensures
        ({
            let enabled = denom@ == config.safety_fund_denom@ || denom@ == config.fee_collector_denom@;
            let total = match amount { Some(a) => a, None => balance };
            let height = block_height + config.timeout_blocks;
            &&& !enabled ==> r == Err::<Distribution, ContractError>(ContractError::AssetNotEnabledForDistribution { denom: *denom })
            &&& (enabled && total > balance) ==> r == Err::<Distribution, ContractError>(
                ContractError::AmountToDistributeTooLarge { amount: total, balance })
            &&& (enabled && total <= balance && height > u64::MAX) ==> r == Err::<Distribution, ContractError>(
                ContractError::Math(MathError::Overflow))
            &&& (r is Ok <==> enabled && total <= balance && height <= u64::MAX)
            &&& r matches Ok(d) ==> {
                &&& d.destination == (if denom@ == config.safety_fund_denom@ { Destination::SafetyFund } else { Destination::FeeCollector })
                &&& d.channel_id@ == config.channel_id@
                &&& d.denom@ == denom@
                &&& d.amount == total
                &&& d.timeout_revision == config.timeout_revision
                &&& d.timeout_height == height
            }
        }),
{
    let destination = if *denom == config.safety_fund_denom {
        Destination::SafetyFund
    } else if *denom == config.fee_collector_denom {
        Destination::FeeCollector
    } else {
        return Err(ContractError::AssetNotEnabledForDistribution { denom: denom.clone() });
    };
    let amount_to_distribute = unwrap_option_amount(balance, amount)?;
    let timeout_height = match block_height.checked_add(config.timeout_blocks) {
        Some(h) => h,
        None => { return Err(ContractError::Math(MathError::Overflow)); },
    };
    Ok(Distribution {
        destination,
        channel_id: config.channel_id.clone(),
        denom: denom.clone(),
        amount: amount_to_distribute,
        timeout_revision: config.timeout_revision,
        timeout_height,
    })
}

/// Stores a route (owner only) once it passes the checks of `SwapInstruction::validate`.
pub fn set_route(
    config: &Config,
    sender: &String,
    denom_in: &String,
    denom_out: &String,
    route: &SwapInstruction,
    pools: &Vec<Vec<String>>,
) -> (r: Result<(), ContractError>)
    ensures
        sender@ != config.owner@ ==> r == Err::<(), ContractError>(ContractError::Unauthorized),
        sender@ == config.owner@ ==> ({
            let expected = spec_route_check(route.0@, pools@, *denom_in, *denom_out);
            &&& (r is Ok <==> expected is Ok)
            &&& r matches Err(e) ==> (expected matches Err(re) && e == ContractError::InvalidSwapRoute(re))
        }),
{
    assert_owner(config, sender)?;
    route.validate(pools, denom_in, denom_out)
}

} // verus!
