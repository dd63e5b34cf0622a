//! The MARS staking pool: MARS is staked for xMARS, xMARS is unstaked into a claim that
//! matures after a cooldown, and the owner may transfer MARS out of the pool, which slashes
//! the pending claims in proportion.
use vstd::prelude::*;
use crate::decimal::{Decimal, MathError, DECIMAL_FRACTIONAL, lemma_mul_floor_le_amount, mul_floor, spec_mul_floor, spec_ratio};

verus! {

/// The staking pool's configuration. Addresses are already validated.
#[derive(Debug)]
pub struct Config {
    pub owner: String,
    /// Seconds a claim waits before it can be claimed
    pub cooldown_duration: u64,
    pub address_provider_address: String,
    pub astroport_factory_address: String,
    pub astroport_max_spread: Decimal,
}

/// Configuration fields; at instantiation all must be given, on update the given ones
/// replace the stored ones.
#[derive(Debug)]
pub struct CreateOrUpdateConfig {
    pub owner: Option<String>,
    pub cooldown_duration: Option<u64>,
    pub address_provider_address: Option<String>,
    pub astroport_factory_address: Option<String>,
    pub astroport_max_spread: Option<Decimal>,
}

/// The MARS in the pool that is owed to claimers and no longer backs xMARS.
#[derive(Clone, Copy, Debug, PartialEq, Eq, Structural)]
pub struct GlobalState {
    pub total_mars_for_claimers: u128,
}

/// MARS owed to an unstaker, claimable once the cooldown has ended.
#[derive(Clone, Copy, Debug, PartialEq, Eq, Structural)]
pub struct Claim {
    pub created_at_block: u64,
    pub cooldown_end_timestamp: u64,
    pub amount: u128,
}

/// The share of the pool that a transfer out of it took, recorded at its block height.
#[derive(Clone, Copy, Debug, PartialEq, Eq, Structural)]
pub struct SlashEvent {
    pub slash_percentage: Decimal,
}

#[derive(Clone, Debug, PartialEq, Eq)]
pub enum ContractError {
    Math(MathError),
    Unauthorized,
    InstantiateParamsUnavailable,
    /// The claim to be claimed does not exist
    ClaimNotFound,
    /// The MARS/xMARS ratio is undefined: nothing is staked or no xMARS exists
    RatioUndefined,
    StakeAmountZero,
    UnstakeAmountZero,
    UnstakeActiveClaim,
    MarsForClaimersOverflow,
    ClaimCooldownNotEnded,
    TransferMarsAmountTooLarge,
    MarsCannotSwap,
}

/// The pool's configuration and global state at instantiation.
pub fn instantiate(msg: CreateOrUpdateConfig) -> (r: Result<(Config, GlobalState), ContractError>)
    ensures
        r is Ok <==> (msg.owner is Some && msg.cooldown_duration is Some && msg.address_provider_address is Some
            && msg.astroport_factory_address is Some && msg.astroport_max_spread is Some),
        r is Err ==> r == Err::<(Config, GlobalState), ContractError>(ContractError::InstantiateParamsUnavailable),
        r matches Ok((c, g)) ==> {
            &&& c == Config {
                owner: msg.owner.unwrap(),
                cooldown_duration: msg.cooldown_duration.unwrap(),
                address_provider_address: msg.address_provider_address.unwrap(),
                astroport_factory_address: msg.astroport_factory_address.unwrap(),
                astroport_max_spread: msg.astroport_max_spread.unwrap(),
            }
            &&& g.total_mars_for_claimers == 0
        },
{
    let CreateOrUpdateConfig { owner, cooldown_duration, address_provider_address, astroport_factory_address, astroport_max_spread } = msg;
    match (owner, cooldown_duration, address_provider_address, astroport_factory_address, astroport_max_spread) {
        (Some(owner), Some(cooldown_duration), Some(address_provider_address), Some(astroport_factory_address), Some(astroport_max_spread)) => {
            let config = Config { owner, cooldown_duration, address_provider_address, astroport_factory_address, astroport_max_spread };
            Ok((config, GlobalState { total_mars_for_claimers: 0 }))
        },
        _ => Err(ContractError::InstantiateParamsUnavailable),
    }
}

/// Updates the configuration (owner only): given fields replace stored ones.
pub fn execute_update_config(config: Config, sender: &String, new_config: CreateOrUpdateConfig) -> (r: Result<Config, ContractError>)
    ensures
        r is Ok <==> sender@ == config.owner@,
        r is Err ==> r == Err::<Config, ContractError>(ContractError::Unauthorized),
        r matches Ok(c) ==> (c == Config {
            owner: match new_config.owner { Some(o) => o, None => config.owner },
            cooldown_duration: match new_config.cooldown_duration { Some(d) => d, None => config.cooldown_duration },
            address_provider_address: match new_config.address_provider_address { Some(a) => a, None => config.address_provider_address },
            astroport_factory_address: match new_config.astroport_factory_address { Some(a) => a, None => config.astroport_factory_address },
            astroport_max_spread: match new_config.astroport_max_spread { Some(s) => s, None => config.astroport_max_spread },
        }),
{
    if *sender != config.owner {
        return Err(ContractError::Unauthorized);
    }
    let CreateOrUpdateConfig { owner, cooldown_duration, address_provider_address, astroport_factory_address, astroport_max_spread } = new_config;
    let Config {
        owner: old_owner,
        cooldown_duration: old_cooldown,
        address_provider_address: old_provider,
        astroport_factory_address: old_factory,
        astroport_max_spread: old_spread,
    } = config;
    Ok(Config {
        owner: match owner { Some(o) => o, None => old_owner },
        cooldown_duration: match cooldown_duration { Some(d) => d, None => old_cooldown },
        address_provider_address: match address_provider_address { Some(a) => a, None => old_provider },
        astroport_factory_address: match astroport_factory_address { Some(a) => a, None => old_factory },
        astroport_max_spread: match astroport_max_spread { Some(s) => s, None => old_spread },
    })
}

/// What the pool reads of the two tokens: their addresses, the pool's MARS balance and the
/// xMARS supply.
#[derive(Debug)]
pub struct TokenState {
    pub mars_token_address: String,
    pub xmars_token_address: String,
    pub mars_balance: u128,
    pub xmars_supply: u128,
}

/// The token amounts the MARS/xMARS ratios are computed from.
#[derive(Debug)]
pub struct StakingTokensInfo {
    pub mars_token_address: String,
    pub xmars_token_address: String,
    /// The pool's MARS balance, less what is being deposited right now
    pub total_mars_in_staking_contract: u128,
    /// The part of it that backs xMARS (claims excluded)
    pub total_mars_for_stakers: u128,
    pub total_xmars_supply: u128,
}

/// The staking amounts; `mars_to_deduct` is MARS already in the pool's balance that must not
/// count yet (a deposit being processed).
pub fn get_staking_tokens_info(tokens: TokenState, global_state: &GlobalState, mars_to_deduct: u128) -> (r: Result<StakingTokensInfo, ContractError>)
    ensures
        r is Ok <==> tokens.mars_balance >= mars_to_deduct + global_state.total_mars_for_claimers,
        r is Err ==> r == Err::<StakingTokensInfo, ContractError>(ContractError::Math(MathError::Overflow)),
        r matches Ok(info) ==> {
            &&& info.mars_token_address == tokens.mars_token_address
            &&& info.xmars_token_address == tokens.xmars_token_address
            &&& info.total_mars_in_staking_contract == tokens.mars_balance - mars_to_deduct
            &&& info.total_mars_for_stakers == tokens.mars_balance - mars_to_deduct - global_state.total_mars_for_claimers
            &&& info.total_xmars_supply == tokens.xmars_supply
        },
{
    let TokenState { mars_token_address, xmars_token_address, mars_balance, xmars_supply } = tokens;
    if mars_balance < mars_to_deduct {
        return Err(ContractError::Math(MathError::Overflow));
    }
    let total_mars_in_staking_contract = mars_balance - mars_to_deduct;
    if total_mars_in_staking_contract < global_state.total_mars_for_claimers {
        return Err(ContractError::Math(MathError::Overflow));
    }
    let total_mars_for_stakers = total_mars_in_staking_contract - global_state.total_mars_for_claimers;
    Ok(StakingTokensInfo {
        mars_token_address,
        xmars_token_address,
        total_mars_in_staking_contract,
        total_mars_for_stakers,
        total_xmars_supply: xmars_supply,
    })
}

/// The ratio `numerator / denominator` between the two sides of the pool, undefined (`None`)
/// when either side is empty.
pub open spec fn spec_pool_ratio(numerator: int, denominator: int) -> Option<Option<int>> {
    if numerator == 0 || denominator == 0 {
        Some(None)
    } else if spec_ratio(numerator, denominator) <= u128::MAX {
        Some(Some(spec_ratio(numerator, denominator)))
    } else {
        None
    }
}

fn pool_ratio(numerator: u128, denominator: u128) -> (r: Result<Option<Decimal>, MathError>)
    ensures
        r is Ok <==> spec_pool_ratio(numerator as int, denominator as int) is Some,
        r is Err ==> r == Err::<Option<Decimal>, MathError>(MathError::Overflow),
        r matches Ok(o) ==> spec_pool_ratio(numerator as int, denominator as int) == Some(match o {
            Some(d) => Some(d.val()),
            None => None::<int>,
        }),
{
    if numerator == 0 || denominator == 0 {
        Ok(None)
    } else {
        match Decimal::from_ratio(numerator, denominator) {
            Ok(d) => Ok(Some(d)),
            Err(_) => Err(MathError::Overflow),
        }
    }
}

/// How many xMARS one staked MARS mints: xMARS supply / MARS for stakers, undefined when
/// either is zero.
pub fn compute_xmars_per_mars(info: &StakingTokensInfo) -> (r: Result<Option<Decimal>, MathError>)
    ensures
        r is Ok <==> spec_pool_ratio(info.total_xmars_supply as int, info.total_mars_for_stakers as int) is Some,
        r is Err ==> r == Err::<Option<Decimal>, MathError>(MathError::Overflow),
        r matches Ok(o) ==> spec_pool_ratio(info.total_xmars_supply as int, info.total_mars_for_stakers as int) == Some(match o {
            Some(d) => Some(d.val()),
            None => None::<int>,
        }),
{
    pool_ratio(info.total_xmars_supply, info.total_mars_for_stakers)
}

/// How many MARS one burnt xMARS can claim: MARS for stakers / xMARS supply, undefined when
/// either is zero.
pub fn compute_mars_per_xmars(info: &StakingTokensInfo) -> (r: Result<Option<Decimal>, MathError>)
    ensures
        r is Ok <==> spec_pool_ratio(info.total_mars_for_stakers as int, info.total_xmars_supply as int) is Some,
        r is Err ==> r == Err::<Option<Decimal>, MathError>(MathError::Overflow),
        r matches Ok(o) ==> spec_pool_ratio(info.total_mars_for_stakers as int, info.total_xmars_supply as int) == Some(match o {
            Some(d) => Some(d.val()),
            None => None::<int>,
        }),
{
    pool_ratio(info.total_mars_for_stakers, info.total_xmars_supply)
}

/// The two ratios are defined together: both are undefined exactly when the pool holds no
/// MARS for stakers or no xMARS exists.
pub proof fn lemma_ratios_defined_together(stakers: u128, supply: u128)
    ensures
        (spec_pool_ratio(supply as int, stakers as int) == Some(None::<int>))
            <==> (spec_pool_ratio(stakers as int, supply as int) == Some(None::<int>)),
        (spec_pool_ratio(supply as int, stakers as int) == Some(None::<int>)) <==> (stakers == 0 || supply == 0),
{
}

/// `amount * (1 - slash)`, rounded down; `None` when the slash exceeds one.
pub open spec fn spec_slash(amount: int, slash: Decimal) -> Option<int> {
    if slash.val() > DECIMAL_FRACTIONAL {
        None
    } else {
        Some(spec_mul_floor(amount, DECIMAL_FRACTIONAL - slash.val()))
    }
}

/// An amount after the slash events recorded at or after `from_block`, applied in order.
pub open spec fn spec_slashed(amount: int, events: Seq<(u64, SlashEvent)>, from_block: u64) -> Option<int>
    decreases events.len(),
{
    if events.len() == 0 {
        Some(amount)
    } else if events[0].0 < from_block {
        spec_slashed(amount, events.drop_first(), from_block)
    } else {
        match spec_slash(amount, events[0].1.slash_percentage) {
            Some(a) => spec_slashed(a, events.drop_first(), from_block),
            None => None,
        }
    }
}

/// Slashing never increases what a claim is owed.
pub proof fn lemma_slashing_never_increases(amount: int, events: Seq<(u64, SlashEvent)>, from_block: u64)
    requires
        amount >= 0,
    ensures
        spec_slashed(amount, events, from_block) matches Some(a) ==> 0 <= a <= amount,
    decreases events.len(),
{
    if events.len() > 0 {
        if events[0].0 < from_block {
            lemma_slashing_never_increases(amount, events.drop_first(), from_block);
        } else if events[0].1.slash_percentage.val() <= DECIMAL_FRACTIONAL {
            let f = DECIMAL_FRACTIONAL - events[0].1.slash_percentage.val();
            lemma_mul_floor_le_amount(amount, f);
            lemma_slashing_never_increases(spec_mul_floor(amount, f), events.drop_first(), from_block);
        }
    }
}

/// Applies to the claim, in order, the slash events recorded at or after the block it was
/// created in. Fails, leaving the claim as it was, on a slash event above one.
pub fn apply_slash_events_to_claim(claim: &mut Claim, slash_events: &Vec<(u64, SlashEvent)>) -> (r: Result<(), MathError>)
    ensures
        r is Ok <==> spec_slashed(old(claim).amount as int, slash_events@, old(claim).created_at_block) is Some,
        r is Err ==> r == Err::<(), MathError>(MathError::Overflow) && *final(claim) == *old(claim),
        r is Ok ==> {
            &&& final(claim).amount as int == spec_slashed(old(claim).amount as int, slash_events@, old(claim).created_at_block)->0
            &&& final(claim).created_at_block == old(claim).created_at_block
            &&& final(claim).cooldown_end_timestamp == old(claim).cooldown_end_timestamp
            &&& final(claim).amount <= old(claim).amount
        },
{
    let n = slash_events.len();
    let from_block = claim.created_at_block;
    let ghost orig = claim.amount as int;
    let mut amount = claim.amount;
    let mut i: usize = 0;
    proof {
        assert(slash_events@.subrange(0, n as int) =~= slash_events@);
    }
    while i < n
        invariant
            n == slash_events@.len(),
            i <= n,
            *claim == *old(claim),
            orig == old(claim).amount,
            from_block == old(claim).created_at_block,
            amount <= orig,
            spec_slashed(orig, slash_events@, from_block) == spec_slashed(amount as int, slash_events@.subrange(i as int, n as int), from_block),
        decreases n - i,
    {
        let ghost rest = slash_events@.subrange(i as int, n as int);
        proof {
            assert(rest.drop_first() =~= slash_events@.subrange(i as int + 1, n as int));
        }
        let (height, event) = slash_events[i];
        if height >= from_block {
            if event.slash_percentage.atomics > DECIMAL_FRACTIONAL {
                proof {
                    assert(rest[0] == slash_events@[i as int]);
                    assert(spec_slashed(amount as int, rest, from_block) is None);
                }
                return Err(MathError::Overflow);
            }
            let factor = Decimal::raw(DECIMAL_FRACTIONAL - event.slash_percentage.atomics);
            proof {
                lemma_mul_floor_le_amount(amount as int, factor.val());
            }
            amount = match mul_floor(amount, factor) {
                Ok(v) => v,
                Err(_) => { return Err(MathError::Overflow); },
            };
        }
        i = i + 1;
    }
    claim.amount = amount;
    Ok(())
}


/// The address a message defaults to when no recipient is given.
pub open spec fn spec_recipient(option_recipient: Option<String>, default: String) -> String {
    match option_recipient {
        Some(r) => r,
        None => default,
    }
}

/// The given recipient, or `default` when none is given.
pub fn resolve_recipient(option_recipient: Option<String>, default: String) -> (r: String)
    ensures
        r == spec_recipient(option_recipient, default),
{
    match option_recipient {
        Some(r) => r,
        None => default,
    }
}

/// The xMARS minted for `stake` MARS when `stakers` MARS back a supply of `supply` xMARS:
/// one for one while the ratio is undefined; `None` on overflow.
pub open spec fn spec_mint_amount(stake: int, stakers: int, supply: int) -> Option<int> {
    match spec_pool_ratio(supply, stakers) {
        Some(None) => Some(stake),
        Some(Some(ratio)) => if spec_mul_floor(stake, ratio) <= u128::MAX {
            Some(spec_mul_floor(stake, ratio))
        } else {
            None
        },
        None => None,
    }
}

/// What a stake mints and for whom.
#[derive(Debug)]
pub struct StakeOutcome {
    pub xmars_token_address: String,
    pub recipient: String,
    pub mint_amount: u128,
}

/// Stakes `stake_amount` MARS, which the MARS token (`sender`) has just transferred to the
/// pool on behalf of `staker`; `tokens` is read after that transfer.
pub fn execute_stake(
    global_state: &GlobalState,
    sender: &String,
    staker: String,
    option_recipient: Option<String>,
    stake_amount: u128,
    tokens: TokenState,
) -> (r: Result<StakeOutcome, ContractError>)
    ensures
        ({
            let bal = tokens.mars_balance as int;
            let claimers = global_state.total_mars_for_claimers as int;
            let mint = spec_mint_amount(stake_amount as int, bal - stake_amount - claimers, tokens.xmars_supply as int);
            &&& stake_amount == 0 ==> r == Err::<StakeOutcome, ContractError>(ContractError::StakeAmountZero)
            &&& (stake_amount != 0 && bal < stake_amount + claimers) ==> r == Err::<StakeOutcome, ContractError>(
                ContractError::Math(MathError::Overflow))
            &&& (stake_amount != 0 && bal >= stake_amount + claimers && sender@ != tokens.mars_token_address@)
                ==> r == Err::<StakeOutcome, ContractError>(ContractError::Unauthorized)
            &&& (stake_amount != 0 && bal >= stake_amount + claimers && sender@ == tokens.mars_token_address@ && mint is None)
                ==> r == Err::<StakeOutcome, ContractError>(ContractError::Math(MathError::Overflow))
            &&& (r is Ok <==> stake_amount != 0 && bal >= stake_amount + claimers && sender@ == tokens.mars_token_address@
                && mint is Some)
            &&& r matches Ok(o) ==> {
                &&& o.mint_amount == mint->0
                &&& o.recipient == spec_recipient(option_recipient, staker)
                &&& o.xmars_token_address == tokens.xmars_token_address
            }
        }),
{
    if stake_amount == 0 {
        return Err(ContractError::StakeAmountZero);
    }
    let ghost xmars_supply = tokens.xmars_supply;
    let ghost mars_token_address = tokens.mars_token_address;
    let info = match get_staking_tokens_info(tokens, global_state, stake_amount) {
        Ok(info) => info,
        Err(e) => { return Err(e); },
    };
    if *sender != info.mars_token_address {
        return Err(ContractError::Unauthorized);
    }
    let mint_amount = match compute_xmars_per_mars(&info) {
        Ok(Some(xmars_per_mars)) => match mul_floor(stake_amount, xmars_per_mars) {
            Ok(v) => v,
            Err(e) => { return Err(ContractError::Math(e)); },
        },
        Ok(None) => stake_amount,
        Err(e) => { return Err(ContractError::Math(e)); },
    };
    let recipient = resolve_recipient(option_recipient, staker);
    Ok(StakeOutcome { xmars_token_address: info.xmars_token_address, recipient, mint_amount })
}

/// The MARS claimable for burning `burn` xMARS and the order of the checks an unstake makes;
/// `balance` is the pool's MARS, `cooldown_end` when the claim would mature.
pub open spec fn spec_unstake(
    claimers: int,
    sender_is_xmars_token: bool,
    burn: int,
    balance: int,
    supply: int,
    cooldown_end: int,
    recipient_has_claim: bool,
) -> Result<int, ContractError> {
    if balance < claimers {
        Err(ContractError::Math(MathError::Overflow))
    } else if !sender_is_xmars_token {
        Err(ContractError::Unauthorized)
    } else if burn == 0 {
        Err(ContractError::UnstakeAmountZero)
    } else {
        match spec_pool_ratio(balance - claimers, supply) {
            None => Err(ContractError::Math(MathError::Overflow)),
            Some(None) => Err(ContractError::RatioUndefined),
            Some(Some(ratio)) => {
                let claimable = spec_mul_floor(burn, ratio);
                if claimable > u128::MAX || cooldown_end > u64::MAX || claimers + claimable > u128::MAX {
                    if claimable <= u128::MAX && cooldown_end <= u64::MAX && recipient_has_claim {
                        Err(ContractError::UnstakeActiveClaim)
                    } else {
                        Err(ContractError::Math(MathError::Overflow))
                    }
                } else if recipient_has_claim {
                    Err(ContractError::UnstakeActiveClaim)
                } else if claimers + claimable > balance {
                    Err(ContractError::MarsForClaimersOverflow)
                } else {
                    Ok(claimable)
                }
            },
        }
    }
}

/// Staking and at once unstaking what was minted never claims more MARS than was staked,
/// except from a pool that holds MARS for stakers but has no xMARS, where the first staker
/// is minted one for one and unstaking claims the pool's MARS too.
pub proof fn lemma_stake_then_unstake_never_profits(stake: u128, stakers: u128, supply: u128)
    requires
        !(supply == 0 && stakers > 0),
        spec_mint_amount(stake as int, stakers as int, supply as int) is Some,
    ensures
        ({
            let minted = spec_mint_amount(stake as int, stakers as int, supply as int)->0;
            spec_pool_ratio(stakers + stake, supply + minted) matches Some(Some(ratio))
                ==> spec_mul_floor(minted, ratio) <= stake
        }),
{
    let d = DECIMAL_FRACTIONAL as int;
    let minted = spec_mint_amount(stake as int, stakers as int, supply as int)->0;
    let sk = stakers as int;
    let sp = supply as int;
    let st = stake as int;
    if let Some(Some(ratio)) = spec_pool_ratio(sk + st, sp + minted) {
        let claim = spec_mul_floor(minted, ratio);
        crate::arith::lemma_floor_mul_le((sk + st) * d, sp + minted);
        assert(ratio * (sp + minted) <= (sk + st) * d);
        assert(minted >= 0) by {
            if sk != 0 && sp != 0 {
                vstd::arithmetic::div_mod::lemma_div_pos_is_pos(sp * d, sk);
                assert(st * spec_ratio(sp, sk) >= 0) by (nonlinear_arith)
                    requires st >= 0, spec_ratio(sp, sk) >= 0;
                vstd::arithmetic::div_mod::lemma_div_pos_is_pos(st * spec_ratio(sp, sk), d);
            }
        }
        assert(ratio >= 0) by {
            vstd::arithmetic::div_mod::lemma_div_pos_is_pos((sk + st) * d, sp + minted);
        }
        assert(minted * ratio >= 0) by (nonlinear_arith)
            requires minted >= 0, ratio >= 0;
        crate::arith::lemma_floor_mul_le(minted * ratio, d);
        assert(claim * d <= minted * ratio);
        // what was minted is worth no more than what was staked: minted * stakers <= stake * supply
        assert(minted * sk <= st * sp) by {
            if sk == 0 || sp == 0 {
                assert(sk == 0);
                assert(minted * sk == 0) by (nonlinear_arith) requires sk == 0;
                assert(st * sp >= 0) by (nonlinear_arith) requires st >= 0, sp >= 0;
            } else {
                let q = spec_ratio(sp, sk);
                crate::arith::lemma_floor_mul_le(sp * d, sk);
                assert(q * sk <= sp * d);
                vstd::arithmetic::div_mod::lemma_div_pos_is_pos(sp * d, sk);
                assert(st * q >= 0) by (nonlinear_arith) requires st >= 0, q >= 0;
                crate::arith::lemma_floor_mul_le(st * q, d);
                assert(minted * d <= st * q);
                assert(minted * sk * d <= st * sp * d) by (nonlinear_arith)
                    requires
                        minted * d <= st * q,
                        q * sk <= sp * d,
                        sk > 0,
                        st >= 0,
                        minted >= 0,
                        q >= 0,
                ;
                assert(minted * sk <= st * sp) by (nonlinear_arith)
                    requires minted * sk * d <= st * sp * d, d > 0;
            }
        }
        assert(claim * d * (sp + minted) <= minted * ratio * (sp + minted)) by (nonlinear_arith)
            requires claim * d <= minted * ratio, sp + minted > 0;
        assert(minted * ratio * (sp + minted) <= minted * (sk + st) * d) by (nonlinear_arith)
            requires ratio * (sp + minted) <= (sk + st) * d, minted >= 0;
        assert(minted * (sk + st) * d <= st * (sp + minted) * d) by (nonlinear_arith)
            requires minted * sk <= st * sp, d > 0;
        assert(claim <= st) by (nonlinear_arith)
            requires
                claim * d * (sp + minted) <= minted * ratio * (sp + minted),
                minted * ratio * (sp + minted) <= minted * (sk + st) * d,
                minted * (sk + st) * d <= st * (sp + minted) * d,
                d > 0,
                sp + minted > 0,
        ;
    }
}

/// What an unstake records: the new claim, for whom, and the new global state.
#[derive(Debug)]
pub struct UnstakeOutcome {
    pub xmars_token_address: String,
    pub recipient: String,
    pub claim: Claim,
    pub global_state: GlobalState,
    pub burn_amount: u128,
}

/// Unstakes `burn_amount` xMARS, which the xMARS token (`sender`) has just transferred to the
/// pool on behalf of `staker`: the xMARS is burnt and the MARS it is worth becomes a claim of
/// the recipient, who must not have a claim already (`recipient_claim`).
pub fn execute_unstake(
    config: &Config,
    global_state: &GlobalState,
    sender: &String,
    staker: String,
    option_recipient: Option<String>,
    burn_amount: u128,
    tokens: TokenState,
    recipient_claim: Option<Claim>,
    block_height: u64,
    block_time: u64,
) -> (r: Result<UnstakeOutcome, ContractError>)
    ensures
        ({
            let claimers = global_state.total_mars_for_claimers as int;
            let expected = spec_unstake(claimers, sender@ == tokens.xmars_token_address@, burn_amount as int,
                tokens.mars_balance as int, tokens.xmars_supply as int, block_time + config.cooldown_duration,
                recipient_claim is Some);
            &&& (r is Ok <==> expected is Ok)
            &&& r matches Err(e) ==> expected == Err::<int, ContractError>(e)
            &&& r matches Ok(o) ==> {
                &&& o.claim == Claim {
                    created_at_block: block_height,
                    cooldown_end_timestamp: (block_time + config.cooldown_duration) as u64,
                    amount: expected->Ok_0 as u128,
                }
                &&& o.global_state.total_mars_for_claimers == claimers + expected->Ok_0
                &&& o.global_state.total_mars_for_claimers <= tokens.mars_balance
                &&& o.recipient == spec_recipient(option_recipient, staker)
                &&& o.burn_amount == burn_amount
                &&& o.xmars_token_address == tokens.xmars_token_address
            }
        }),
{
    let ghost balance = tokens.mars_balance as int;
    let ghost supply = tokens.xmars_supply as int;
    let ghost xmars = tokens.xmars_token_address;
    let info = match get_staking_tokens_info(tokens, global_state, 0) {
        Ok(info) => info,
        Err(e) => { return Err(e); },
    };
    if *sender != info.xmars_token_address {
        return Err(ContractError::Unauthorized);
    }
    if burn_amount == 0 {
        return Err(ContractError::UnstakeAmountZero);
    }
    let claimable_amount = match compute_mars_per_xmars(&info) {
        Ok(Some(mars_per_xmars)) => match mul_floor(burn_amount, mars_per_xmars) {
            Ok(v) => v,
            Err(e) => { return Err(ContractError::Math(e)); },
        },
        Ok(None) => { return Err(ContractError::RatioUndefined); },
        Err(e) => { return Err(ContractError::Math(e)); },
    };
    let cooldown_end_timestamp = match block_time.checked_add(config.cooldown_duration) {
        Some(t) => t,
        None => { return Err(ContractError::Math(MathError::Overflow)); },
    };
    let claim = Claim { created_at_block: block_height, cooldown_end_timestamp, amount: claimable_amount };
    let recipient = resolve_recipient(option_recipient, staker);
    if recipient_claim.is_some() {
        return Err(ContractError::UnstakeActiveClaim);
    }
    let total_mars_for_claimers = match global_state.total_mars_for_claimers.checked_add(claimable_amount) {
        Some(t) => t,
        None => { return Err(ContractError::Math(MathError::Overflow)); },
    };
    if total_mars_for_claimers > info.total_mars_in_staking_contract {
        return Err(ContractError::MarsForClaimersOverflow);
    }
    Ok(UnstakeOutcome {
        xmars_token_address: info.xmars_token_address,
        recipient,
        claim,
        global_state: GlobalState { total_mars_for_claimers },
        burn_amount,
    })
}

/// What a claim pays out and the new global state.
#[derive(Debug)]
pub struct ClaimOutcome {
    /// The claim after slashing; its amount is paid out
    pub claim: Claim,
    pub recipient: String,
    pub global_state: GlobalState,
}

/// Pays out the sender's matured claim, slashed by the slash events recorded since it was
/// created (`slash_events`: the recorded events in order, with their block heights).
pub fn execute_claim(
    claim: Option<Claim>,
    global_state: &GlobalState,
    slash_events: &Vec<(u64, SlashEvent)>,
    sender: &String,
    option_recipient: Option<String>,
    block_time: u64,
) -> (r: Result<ClaimOutcome, ContractError>)
    ensures
        claim is None ==> r == Err::<ClaimOutcome, ContractError>(ContractError::ClaimNotFound),
        claim matches Some(c) ==> {
            let slashed = spec_slashed(c.amount as int, slash_events@, c.created_at_block);
            &&& c.cooldown_end_timestamp > block_time ==> r == Err::<ClaimOutcome, ContractError>(ContractError::ClaimCooldownNotEnded)
            &&& (c.cooldown_end_timestamp <= block_time && (slashed is None || slashed->0 > global_state.total_mars_for_claimers))
                ==> r == Err::<ClaimOutcome, ContractError>(ContractError::Math(MathError::Overflow))
            &&& (r is Ok <==> c.cooldown_end_timestamp <= block_time && slashed is Some
                && slashed->0 <= global_state.total_mars_for_claimers)
            &&& r matches Ok(o) ==> {
                &&& o.claim == Claim { amount: slashed->0 as u128, ..c }
                &&& o.claim.amount <= c.amount
                &&& o.global_state.total_mars_for_claimers == global_state.total_mars_for_claimers - slashed->0
                &&& o.recipient == spec_recipient(option_recipient, *sender)
            }
        },
{
    let mut claim = match claim {
        Some(c) => c,
        None => { return Err(ContractError::ClaimNotFound); },
    };
    if claim.cooldown_end_timestamp > block_time {
        return Err(ContractError::ClaimCooldownNotEnded);
    }
    match apply_slash_events_to_claim(&mut claim, slash_events) {
        Ok(()) => {},
        Err(e) => { return Err(ContractError::Math(e)); },
    }
    if global_state.total_mars_for_claimers < claim.amount {
        return Err(ContractError::Math(MathError::Overflow));
    }
    let total_mars_for_claimers = global_state.total_mars_for_claimers - claim.amount;
    let recipient = resolve_recipient(option_recipient, sender.clone());
    Ok(ClaimOutcome { claim, recipient, global_state: GlobalState { total_mars_for_claimers } })
}

/// What a transfer out of the pool records: the slash and the slashed claims total.
#[derive(Debug)]
pub struct TransferMarsOutcome {
    pub slash_event: SlashEvent,
    pub global_state: GlobalState,
}

/// Transfers `amount` MARS out of the pool (owner only); the share of the pool it takes is
/// recorded as a slash event and every pending claim shrinks by that share.
pub fn execute_transfer_mars(
    config: &Config,
    sender: &String,
    amount: u128,
    total_mars_in_staking_contract: u128,
    global_state: &GlobalState,
) -> (r: Result<TransferMarsOutcome, ContractError>)
    ensures
        sender@ != config.owner@ ==> r == Err::<TransferMarsOutcome, ContractError>(ContractError::Unauthorized),
        (sender@ == config.owner@ && amount > total_mars_in_staking_contract)
            ==> r == Err::<TransferMarsOutcome, ContractError>(ContractError::TransferMarsAmountTooLarge),
        (sender@ == config.owner@ && amount <= total_mars_in_staking_contract && total_mars_in_staking_contract == 0)
            ==> r == Err::<TransferMarsOutcome, ContractError>(ContractError::Math(MathError::DivideByZero)),
        r is Ok <==> (sender@ == config.owner@ && amount <= total_mars_in_staking_contract && total_mars_in_staking_contract > 0),
        r matches Ok(o) ==> {
            &&& o.slash_event.slash_percentage.val() == spec_ratio(amount as int, total_mars_in_staking_contract as int)
            &&& o.slash_event.slash_percentage.val() <= DECIMAL_FRACTIONAL
            &&& o.global_state.total_mars_for_claimers as int == spec_slash(global_state.total_mars_for_claimers as int,
                o.slash_event.slash_percentage)->0
            &&& o.global_state.total_mars_for_claimers <= global_state.total_mars_for_claimers
        },
{
    if *sender != config.owner {
        return Err(ContractError::Unauthorized);
    }
    if amount > total_mars_in_staking_contract {
        return Err(ContractError::TransferMarsAmountTooLarge);
    }
    if total_mars_in_staking_contract == 0 {
        return Err(ContractError::Math(MathError::DivideByZero));
    }
    proof {
        assert(amount as int * DECIMAL_FRACTIONAL as int <= total_mars_in_staking_contract as int * DECIMAL_FRACTIONAL as int) by (nonlinear_arith)
            requires amount <= total_mars_in_staking_contract;
        crate::arith::lemma_div_monotone(amount as int * DECIMAL_FRACTIONAL as int,
            total_mars_in_staking_contract as int * DECIMAL_FRACTIONAL as int, total_mars_in_staking_contract as int);
        vstd::arithmetic::mul::lemma_mul_is_commutative(total_mars_in_staking_contract as int, DECIMAL_FRACTIONAL as int);
        crate::arith::lemma_mul_div_cancel(DECIMAL_FRACTIONAL as int, total_mars_in_staking_contract as int);
    }
    let slash_percentage = match Decimal::from_ratio(amount, total_mars_in_staking_contract) {
        Ok(d) => d,
        Err(e) => { return Err(ContractError::Math(e)); },
    };
    let factor = Decimal::raw(DECIMAL_FRACTIONAL - slash_percentage.atomics);
    proof {
        lemma_mul_floor_le_amount(global_state.total_mars_for_claimers as int, factor.val());
    }
    let total_mars_for_claimers = match mul_floor(global_state.total_mars_for_claimers, factor) {
        Ok(v) => v,
        Err(e) => { return Err(ContractError::Math(e)); },
    };
    Ok(TransferMarsOutcome {
        slash_event: SlashEvent { slash_percentage },
        global_state: GlobalState { total_mars_for_claimers },
    })
}


/// An asset of the pool's swaps: a CW20 token or a native coin.
#[derive(Clone, Debug)]
pub enum AssetInfo {
    Token { contract_addr: String },
    NativeToken { denom: String },
}

/// A swap on the pair that the factory lists for the two assets.
#[derive(Debug)]
pub struct SwapRequest {
    pub offer_asset_info: AssetInfo,
    pub ask_asset_info: AssetInfo,
    /// The amount to offer; the whole balance when not given
    pub amount: Option<u128>,
    pub astroport_factory_address: String,
    pub max_spread: Option<Decimal>,
}

/// The lower-case form of a string, as `str::to_lowercase` maps it.
pub uninterp spec fn lowercase_of(s: Seq<char>) -> Seq<char>;

/// Wrapper of `str::to_lowercase`: the string with every character replaced by its
/// lower-case mapping. Nothing more is stated of the mapping than that it depends on the
/// string alone.
#[verifier::external_body]
fn to_lowercase(s: &str) -> (r: String)
    ensures
        r@ == lowercase_of(s@),
{
    s.to_lowercase()
}

/// The denom the pool's swaps go through.
fn uusd() -> (r: String)
    ensures
        r@ == "uusd"@,
{
    "uusd".to_owned()
}

/// A swap of `amount` of any asset but MARS into UST. MARS is told apart from the offered
/// token by comparing their addresses case-insensitively.
pub fn execute_swap_asset_to_uusd(
    config: &Config,
    offer_asset_info: AssetInfo,
    amount: Option<u128>,
    mars_token_address: &String,
) -> (r: Result<SwapRequest, ContractError>)
    ensures
        (offer_asset_info matches AssetInfo::Token { contract_addr }
            && lowercase_of(contract_addr@) == lowercase_of(mars_token_address@))
            <==> r == Err::<SwapRequest, ContractError>(ContractError::MarsCannotSwap),
        r is Err ==> r == Err::<SwapRequest, ContractError>(ContractError::MarsCannotSwap),
        r matches Ok(q) ==> {
            &&& q.offer_asset_info == offer_asset_info
            &&& q.ask_asset_info matches AssetInfo::NativeToken { denom } && denom@ == "uusd"@
            &&& q.amount == amount
            &&& q.astroport_factory_address@ == config.astroport_factory_address@
            &&& q.max_spread == Some(config.astroport_max_spread)
        },
{
    match &offer_asset_info {
        AssetInfo::Token { contract_addr } => {
            let offered = to_lowercase(contract_addr.as_str());
            let mars = to_lowercase(mars_token_address.as_str());
            if offered == mars {
                return Err(ContractError::MarsCannotSwap);
            }
        },
        AssetInfo::NativeToken { .. } => {},
    }
    Ok(SwapRequest {
        offer_asset_info,
        ask_asset_info: AssetInfo::NativeToken { denom: uusd() },
        amount,
        astroport_factory_address: config.astroport_factory_address.clone(),
        max_spread: Some(config.astroport_max_spread),
    })
}

/// A swap of `amount` UST into MARS.
pub fn execute_swap_uusd_to_mars(config: &Config, amount: Option<u128>, mars_token_address: String) -> (r: SwapRequest)
    ensures
        r.offer_asset_info matches AssetInfo::NativeToken { denom } && denom@ == "uusd"@,
        r.ask_asset_info == (AssetInfo::Token { contract_addr: mars_token_address }),
        r.amount == amount,
        r.astroport_factory_address@ == config.astroport_factory_address@,
        r.max_spread == Some(config.astroport_max_spread),
{
    SwapRequest {
        offer_asset_info: AssetInfo::NativeToken { denom: uusd() },
        ask_asset_info: AssetInfo::Token { contract_addr: mars_token_address },
        amount,
        astroport_factory_address: config.astroport_factory_address.clone(),
        max_spread: Some(config.astroport_max_spread),
    }
}


/// A user's claim as it stands: slashed by the events recorded since it was created.
pub fn query_claim(claim: Option<Claim>, slash_events: &Vec<(u64, SlashEvent)>) -> (r: Result<Option<Claim>, MathError>)
    ensures
        claim is None ==> r == Ok::<Option<Claim>, MathError>(None),
        claim matches Some(c) ==> {
            let slashed = spec_slashed(c.amount as int, slash_events@, c.created_at_block);
            &&& (r is Ok <==> slashed is Some)
            &&& r is Err ==> r == Err::<Option<Claim>, MathError>(MathError::Overflow)
            &&& r matches Ok(o) ==> o == Some(Claim { amount: slashed->0 as u128, ..c })
        },
{
    match claim {
        Some(c) => {
            let mut c = c;
            apply_slash_events_to_claim(&mut c, slash_events)?;
            Ok(Some(c))
        },
        None => Ok(None),
    }
}

/// How many xMARS one staked MARS would mint now.
pub fn query_xmars_per_mars(tokens: TokenState, global_state: &GlobalState) -> (r: Result<Option<Decimal>, ContractError>)
    ensures
        ({
            let stakers = tokens.mars_balance - global_state.total_mars_for_claimers;
            let ratio = spec_pool_ratio(tokens.xmars_supply as int, stakers);
            &&& (r is Ok <==> stakers >= 0 && ratio is Some)
            &&& r is Err ==> r == Err::<Option<Decimal>, ContractError>(ContractError::Math(MathError::Overflow))
            &&& r matches Ok(o) ==> ratio == Some(match o { Some(d) => Some(d.val()), None => None::<int> })
        }),
{
    let info = get_staking_tokens_info(tokens, global_state, 0)?;
    match compute_xmars_per_mars(&info) {
        Ok(o) => Ok(o),
        Err(e) => Err(ContractError::Math(e)),
    }
}

/// How many MARS one burnt xMARS would claim now.
pub fn query_mars_per_xmars(tokens: TokenState, global_state: &GlobalState) -> (r: Result<Option<Decimal>, ContractError>)
    ensures
        ({
            let stakers = tokens.mars_balance - global_state.total_mars_for_claimers;
            let ratio = spec_pool_ratio(stakers, tokens.xmars_supply as int);
            &&& (r is Ok <==> stakers >= 0 && ratio is Some)
            &&& r is Err ==> r == Err::<Option<Decimal>, ContractError>(ContractError::Math(MathError::Overflow))
            &&& r matches Ok(o) ==> ratio == Some(match o { Some(d) => Some(d.val()), None => None::<int> })
        }),
{
    let info = get_staking_tokens_info(tokens, global_state, 0)?;
    match compute_mars_per_xmars(&info) {
        Ok(o) => Ok(o),
        Err(e) => Err(ContractError::Math(e)),
    }
}

} // verus!
