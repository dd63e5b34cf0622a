//! The safety fund: a treasury that only its owner can move funds out of.
use vstd::prelude::*;

verus! {

/// The fund's configuration; the owner's address is already validated.
#[derive(Clone, Debug)]
pub struct Config {
    pub owner: String,
}

#[derive(Clone, Copy, Debug, PartialEq, Eq, Structural)]
pub enum ContractError {
    Unauthorized,
}

/// The fund's configuration at instantiation.
pub fn instantiate(owner: String) -> (r: Config)
    ensures
        r.owner == owner,
{
    Config { owner }
}

/// Passes a message on for the fund to send (owner only).
pub fn execute_execute_cosmos_msg<M>(config: &Config, sender: &String, msg: M) -> (r: Result<M, ContractError>)
    ensures
        r is Ok <==> sender@ == config.owner@,
        r is Err ==> r == Err::<M, ContractError>(ContractError::Unauthorized),
        r matches Ok(m) ==> m == msg,
{
    if *sender != config.owner {
        return Err(ContractError::Unauthorized);
    }
    Ok(msg)
}

/// Hands the fund to a new owner, if one is given (owner only).
pub fn execute_update_config(config: Config, sender: &String, owner: Option<String>) -> (r: Result<Config, ContractError>)
    ensures
        r is Ok <==> sender@ == config.owner@,
        r is Err ==> r == Err::<Config, ContractError>(ContractError::Unauthorized),
        r matches Ok(c) ==> c.owner == (match owner { Some(o) => o, None => config.owner }),
{
    if *sender != config.owner {
        return Err(ContractError::Unauthorized);
    }
    let owner = match owner {
        Some(o) => o,
        None => config.owner,
    };
    Ok(Config { owner })
}

} // verus!
