//! The records the red bank keeps per user and per (user, asset).
use vstd::prelude::*;
use crate::decimal::MathError;
use crate::error::{ContractError, Record};
use crate::red_bank::{RedBankEvent, build_collateral_position_changed_event, build_debt_position_changed_event};

verus! {

/// A user's flags across markets: bit `i` of `collateral_assets` is set when the asset of market
/// `i` counts as collateral, and of `borrowed_assets` when the user borrows it.
#[derive(Clone, Copy, Debug, PartialEq, Eq, Structural, Default)]
pub struct User {
    pub collateral_assets: u128,
    pub borrowed_assets: u128,
}

impl User {
    /// A user with no positions.
    pub fn new() -> (r: User)
        ensures
            r.collateral_assets == 0,
            r.borrowed_assets == 0,
    {
        User { collateral_assets: 0, borrowed_assets: 0 }
    }
}

/// A user's debt in one asset.
#[derive(Clone, Copy, Debug, PartialEq, Eq, Structural)]
pub struct Debt {
    /// Scaled debt amount
    pub amount_scaled: u128,
    /// Whether the debt was taken under an uncollateralized loan limit
    pub uncollateralized: bool,
}

/// A user's collateral in one asset.
#[derive(Clone, Copy, Debug, PartialEq, Eq, Structural)]
pub struct Collateral {
    /// Scaled collateral amount
    pub amount_scaled: u128,
    /// Whether the asset counts as collateral for the user's debts
    pub enabled: bool,
}

#[derive(Clone, Copy, Debug, PartialEq, Eq, Structural)]
pub struct GlobalState {
    /// Number of markets; the next market gets this index
    pub market_count: u32,
}


/// Adds `amount_scaled` to the user's collateral in `denom`. A new position gets the status
/// `default_enable`, and when it is enabled, the event reporting it.
pub fn increment_collateral(
    collateral: Option<Collateral>,
    addr: &String,
    denom: &String,
    amount_scaled: u128,
    default_enable: bool,
) -> (r: Result<(Collateral, Option<RedBankEvent>), MathError>)
    ensures
        collateral matches Some(c) ==> {
            &&& (r is Ok <==> c.amount_scaled + amount_scaled <= u128::MAX)
            &&& r matches Ok((n, e)) ==> n == Collateral { amount_scaled: (c.amount_scaled + amount_scaled) as u128, ..c } && e is None
        },
        collateral is None ==> r == Ok::<(Collateral, Option<RedBankEvent>), MathError>((
            Collateral { amount_scaled, enabled: default_enable },
            if default_enable {
                Some(RedBankEvent::CollateralPositionChanged { denom: *denom, enabled: true, user: *addr })
            } else {
                None
            },
        )),
        r matches Err(e) ==> e == MathError::Overflow,
{
    match collateral {
        Some(c) => match c.amount_scaled.checked_add(amount_scaled) {
            Some(v) => Ok((Collateral { amount_scaled: v, enabled: c.enabled }, None)),
            None => Err(MathError::Overflow),
        },
        None => {
            let event = if default_enable {
                Some(build_collateral_position_changed_event(denom, true, addr))
            } else {
                None
            };
            Ok((Collateral { amount_scaled, enabled: default_enable }, event))
        },
    }
}

/// Takes `amount_scaled` from the user's collateral in `denom`. A position taken to zero is
/// removed (`None`), with the event reporting it when it was enabled.
pub fn deduct_collateral(
    collateral: Option<Collateral>,
    addr: &String,
    denom: &String,
    amount_scaled: u128,
) -> (r: Result<(Option<Collateral>, Option<RedBankEvent>), ContractError>)
    ensures
        collateral is None ==> r == Err::<(Option<Collateral>, Option<RedBankEvent>), ContractError>(ContractError::NotFound(Record::Collateral)),
        collateral matches Some(c) ==> {
            &&& c.amount_scaled == amount_scaled ==> r == Ok::<(Option<Collateral>, Option<RedBankEvent>), ContractError>((
                None,
                if c.enabled {
                    Some(RedBankEvent::CollateralPositionChanged { denom: *denom, enabled: false, user: *addr })
                } else {
                    None
                },
            ))
            &&& c.amount_scaled > amount_scaled ==> r == Ok::<(Option<Collateral>, Option<RedBankEvent>), ContractError>((
                Some(Collateral { amount_scaled: (c.amount_scaled - amount_scaled) as u128, ..c }),
                None,
            ))
            &&& c.amount_scaled < amount_scaled ==> r == Err::<(Option<Collateral>, Option<RedBankEvent>), ContractError>(
                ContractError::Math(MathError::Overflow))
        },
{
    let c = match collateral {
        Some(c) => c,
        None => { return Err(ContractError::NotFound(Record::Collateral)); },
    };
    if c.amount_scaled == amount_scaled {
        let event = if c.enabled {
            Some(build_collateral_position_changed_event(denom, false, addr))
        } else {
            None
        };
        Ok((None, event))
    } else if c.amount_scaled > amount_scaled {
        Ok((Some(Collateral { amount_scaled: c.amount_scaled - amount_scaled, enabled: c.enabled }), None))
    } else {
        Err(ContractError::Math(MathError::Overflow))
    }
}

/// Adds `amount_scaled` to the user's debt in `denom`. A new position gets the given
/// `uncollateralized` status and the event reporting it.
pub fn increment_debt(
    debt: Option<Debt>,
    addr: &String,
    denom: &String,
    amount_scaled: u128,
    uncollateralized: bool,
) -> (r: Result<(Debt, Option<RedBankEvent>), MathError>)
    ensures
        debt matches Some(d) ==> {
            &&& (r is Ok <==> d.amount_scaled + amount_scaled <= u128::MAX)
            &&& r matches Ok((n, e)) ==> n == Debt { amount_scaled: (d.amount_scaled + amount_scaled) as u128, ..d } && e is None
        },
        debt is None ==> r == Ok::<(Debt, Option<RedBankEvent>), MathError>((
            Debt { amount_scaled, uncollateralized },
            Some(RedBankEvent::DebtPositionChanged { denom: *denom, enabled: true, user: *addr }),
        )),
        r matches Err(e) ==> e == MathError::Overflow,
{
    match debt {
        Some(d) => match d.amount_scaled.checked_add(amount_scaled) {
            Some(v) => Ok((Debt { amount_scaled: v, uncollateralized: d.uncollateralized }, None)),
            None => Err(MathError::Overflow),
        },
        None => Ok((Debt { amount_scaled, uncollateralized }, Some(build_debt_position_changed_event(denom, true, addr)))),
    }
}

/// Takes `amount_scaled` from the user's debt in `denom`. A position taken to zero is
/// removed (`None`), with the event reporting it.
pub fn deduct_debt(
    debt: Option<Debt>,
    addr: &String,
    denom: &String,
    amount_scaled: u128,
) -> (r: Result<(Option<Debt>, Option<RedBankEvent>), ContractError>)
    ensures
        debt is None ==> r == Err::<(Option<Debt>, Option<RedBankEvent>), ContractError>(ContractError::NotFound(Record::Debt)),
        debt matches Some(d) ==> {
            &&& d.amount_scaled == amount_scaled ==> r == Ok::<(Option<Debt>, Option<RedBankEvent>), ContractError>((
                None,
                Some(RedBankEvent::DebtPositionChanged { denom: *denom, enabled: false, user: *addr }),
            ))
            &&& d.amount_scaled > amount_scaled ==> r == Ok::<(Option<Debt>, Option<RedBankEvent>), ContractError>((
                Some(Debt { amount_scaled: (d.amount_scaled - amount_scaled) as u128, ..d }),
                None,
            ))
            &&& d.amount_scaled < amount_scaled ==> r == Err::<(Option<Debt>, Option<RedBankEvent>), ContractError>(
                ContractError::Math(MathError::Overflow))
        },
{
    let d = match debt {
        Some(d) => d,
        None => { return Err(ContractError::NotFound(Record::Debt)); },
    };
    if d.amount_scaled == amount_scaled {
        Ok((None, Some(build_debt_position_changed_event(denom, false, addr))))
    } else if d.amount_scaled > amount_scaled {
        Ok((Some(Debt { amount_scaled: d.amount_scaled - amount_scaled, uncollateralized: d.uncollateralized }), None))
    } else {
        Err(ContractError::Math(MathError::Overflow))
    }
}

/// A deduction undoes an increment: adding to a position and taking the same amount away
/// leaves it as it was.
pub proof fn lemma_deduct_undoes_increment(c: Collateral, amount_scaled: u128)
    requires
        c.amount_scaled + amount_scaled <= u128::MAX,
    ensures
        ({
            let added = Collateral { amount_scaled: (c.amount_scaled + amount_scaled) as u128, ..c };
            &&& added.amount_scaled > amount_scaled || (added.amount_scaled == amount_scaled && c.amount_scaled == 0)
            &&& added.amount_scaled > amount_scaled ==> Collateral { amount_scaled: (added.amount_scaled - amount_scaled) as u128, ..added } == c
        }),
{
}

} // verus!
