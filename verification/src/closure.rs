//! Closing a red bank market: once all its debt is repaid, the asset it holds is paid back to
//! the holders of its maToken in proportion to their balances, and their maTokens are burnt.
use vstd::prelude::*;
use crate::decimal::{MathError, multiply_ratio};

verus! {

/// What one maToken holder gets back.
#[derive(Clone, Debug)]
pub struct Refund {
    pub owner: String,
    /// The maTokens burnt: the holder's whole balance
    pub burn_amount: u128,
    /// The asset paid back
    pub refund_amount: u128,
}

#[derive(Clone, Copy, Debug, PartialEq, Eq, Structural)]
pub enum ContractError {
    /// Refunds start only once the market's debt is fully repaid
    DebtNotRepaid { debt_total_scaled: u128 },
    Math(MathError),
}

/// The refunds, in order, of holders with the given balances, when `total` of the asset is
/// left for `supply` maTokens: each holder gets the share of what is left that their balance
/// is of the supply left, rounded down. `None` when a balance exceeds the supply left.
pub open spec fn spec_refunds(total: int, supply: int, owners: Seq<(String, u128)>) -> Option<Seq<int>>
    decreases owners.len(),
{
    if owners.len() == 0 {
        Some(Seq::<int>::empty())
    } else {
        let balance = owners[0].1 as int;
        let amount = total * balance / supply;
        if supply <= 0 || balance > supply || amount > total {
            None
        } else {
            match spec_refunds(total - amount, supply - balance, owners.drop_first()) {
                Some(rest) => Some(seq![amount] + rest),
                None => None,
            }
        }
    }
}

/// The sum of a sequence of amounts.
pub open spec fn sum_of(s: Seq<int>) -> int
    decreases s.len(),
{
    if s.len() == 0 {
        0
    } else {
        s[0] + sum_of(s.drop_first())
    }
}

/// The sum of the holders' balances.
pub open spec fn sum_of_balances(owners: Seq<(String, u128)>) -> int
    decreases owners.len(),
{
    if owners.len() == 0 {
        0
    } else {
        owners[0].1 as int + sum_of_balances(owners.drop_first())
    }
}

/// `a` followed by the sequence in `o`, if there is one.
pub open spec fn prepend(a: Seq<int>, o: Option<Seq<int>>) -> Option<Seq<int>> {
    match o {
        Some(r) => Some(a + r),
        None => None,
    }
}

proof fn lemma_prepend_push(a: Seq<int>, x: int, o: Option<Seq<int>>)
    ensures
        prepend(a, prepend(seq![x], o)) == prepend(a.push(x), o),
{
    if let Some(r) = o {
        assert(a + (seq![x] + r) =~= a.push(x) + r);
    }
}

proof fn lemma_sum_cons(x: int, r: Seq<int>)
    ensures
        sum_of(seq![x] + r) == x + sum_of(r),
{
    assert((seq![x] + r).drop_first() =~= r);
}

/// The refunds never pay out more than is left of the asset.
pub proof fn lemma_refunds_within_balance(total: int, supply: int, owners: Seq<(String, u128)>)
    requires
        total >= 0,
        spec_refunds(total, supply, owners) is Some,
    ensures
        sum_of(spec_refunds(total, supply, owners)->0) <= total,
        forall|i: int| 0 <= i < spec_refunds(total, supply, owners)->0.len()
            ==> 0 <= #[trigger] spec_refunds(total, supply, owners)->0[i],
    decreases owners.len(),
{
    if owners.len() > 0 {
        let balance = owners[0].1 as int;
        let amount = total * balance / supply;
        assert(amount >= 0) by (nonlinear_arith)
            requires total >= 0, balance >= 0, supply > 0, amount == total * balance / supply;
        lemma_refunds_within_balance(total - amount, supply - balance, owners.drop_first());
        let rest = spec_refunds(total - amount, supply - balance, owners.drop_first())->0;
        lemma_sum_cons(amount, rest);
        let all = seq![amount] + rest;
        assert forall|i: int| 0 <= i < all.len() implies 0 <= #[trigger] all[i] by {
            if i > 0 {
                assert(all[i] == rest[i - 1]);
            }
        }
    }
}

/// When the holders listed make up the whole maToken supply, the refunds pay out exactly what
/// is left of the asset.
pub proof fn lemma_refunds_exhaust_balance(total: int, supply: int, owners: Seq<(String, u128)>)
    requires
        total >= 0,
        owners.len() > 0,
        sum_of_balances(owners) == supply,
        spec_refunds(total, supply, owners) is Some,
    ensures
        sum_of(spec_refunds(total, supply, owners)->0) == total,
    decreases owners.len(),
{
    let balance = owners[0].1 as int;
    let amount = total * balance / supply;
    let rest_owners = owners.drop_first();
    let rest = spec_refunds(total - amount, supply - balance, rest_owners)->0;
    lemma_sum_cons(amount, rest);
    if rest_owners.len() == 0 {
        assert(sum_of_balances(rest_owners) == 0);
        assert(balance == supply);
        crate::arith::lemma_mul_div_cancel(total, supply);
    } else {
        lemma_refunds_exhaust_balance(total - amount, supply - balance, rest_owners);
    }
}

/// The refunds of a market closure (`owners_balances`: the maToken holders and their
/// balances, `total_amount_to_refund`: the asset the red bank holds, `ma_token_supply`: the
/// maToken's total supply). Refused while the market has debt.
pub fn refund(
    debt_total_scaled: u128,
    total_amount_to_refund: u128,
    ma_token_supply: u128,
    owners_balances: &Vec<(String, u128)>,
) -> (r: Result<Vec<Refund>, ContractError>)
    ensures
        debt_total_scaled != 0 ==> r == Err::<Vec<Refund>, ContractError>(ContractError::DebtNotRepaid { debt_total_scaled }),
        debt_total_scaled == 0 ==> ({
            let expected = spec_refunds(total_amount_to_refund as int, ma_token_supply as int, owners_balances@);
            &&& (r is Ok <==> expected is Some)
            &&& r matches Err(e) ==> e is Math
            &&& r matches Ok(v) ==> {
                &&& v@.len() == owners_balances@.len()
                &&& forall|i: int| 0 <= i < v@.len() ==> {
                    &&& (#[trigger] v@[i]).owner == owners_balances@[i].0
                    &&& v@[i].burn_amount == owners_balances@[i].1
                    &&& v@[i].refund_amount as int == expected->0[i]
                }
            }
        }),
{
    if debt_total_scaled != 0 {
        return Err(ContractError::DebtNotRepaid { debt_total_scaled });
    }
    let n = owners_balances.len();
    let ghost owners = owners_balances@;
    let mut total = total_amount_to_refund;
    let mut supply = ma_token_supply;
    let mut refunds: Vec<Refund> = Vec::new();
    let mut i: usize = 0;
    proof {
        assert(owners.subrange(0, n as int) =~= owners);
        assert(refunds@.map_values(|x: Refund| x.refund_amount as int) =~= Seq::<int>::empty());
        assert(Seq::<int>::empty() + spec_refunds(total as int, supply as int, owners)->0
            =~= spec_refunds(total as int, supply as int, owners)->0);
    }
    while i < n
        invariant
            n == owners.len(),
            owners == owners_balances@,
            debt_total_scaled == 0,
            i <= n,
            refunds@.len() == i,
            forall|j: int| 0 <= j < i ==> {
                &&& (#[trigger] refunds@[j]).owner == owners[j].0
                &&& refunds@[j].burn_amount == owners[j].1
            },
            spec_refunds(total_amount_to_refund as int, ma_token_supply as int, owners) == prepend(
                refunds@.map_values(|x: Refund| x.refund_amount as int),
                spec_refunds(total as int, supply as int, owners.subrange(i as int, n as int)),
            ),
        decreases n - i,
    {
        let ghost done = refunds@.map_values(|x: Refund| x.refund_amount as int);
        let ghost rest = owners.subrange(i as int, n as int);
        proof {
            assert(rest.drop_first() =~= owners.subrange(i as int + 1, n as int));
            assert(rest[0] == owners[i as int]);
        }
        let (owner, balance) = &owners_balances[i];
        let amount = match multiply_ratio(total, *balance, supply) {
            Ok(v) => v,
            Err(e) => {
                proof {
                    assert(spec_refunds(total as int, supply as int, rest) is None);
                }
                return Err(ContractError::Math(e));
            },
        };
        if amount > total || *balance > supply {
            proof {
                assert(spec_refunds(total as int, supply as int, rest) is None);
            }
            return Err(ContractError::Math(MathError::Overflow));
        }
        proof {
            lemma_prepend_push(done, amount as int,
                spec_refunds((total - amount) as int, (supply - *balance) as int, owners.subrange(i as int + 1, n as int)));
        }
        total = total - amount;
        supply = supply - *balance;
        refunds.push(Refund { owner: owner.clone(), burn_amount: *balance, refund_amount: amount });
        proof {
            assert(refunds@.map_values(|x: Refund| x.refund_amount as int) =~= done.push(amount as int));
        }
        i = i + 1;
    }
    proof {
        assert(owners.subrange(n as int, n as int) =~= Seq::<(String, u128)>::empty());
        assert(refunds@.map_values(|x: Refund| x.refund_amount as int) + Seq::<int>::empty()
            =~= refunds@.map_values(|x: Refund| x.refund_amount as int));
    }
    Ok(refunds)
}


/// An asset a market holds: a CW20 token or a native coin.
#[derive(Clone, Debug)]
pub enum Asset {
    Cw20 { contract_addr: String },
    Native { denom: String },
}

/// A transfer of an asset to a recipient.
#[derive(Clone, Debug)]
pub enum TransferMsg {
    /// A CW20 `transfer` executed on the token contract
    Cw20Transfer { contract_addr: String, recipient: String, amount: u128 },
    /// A bank send of a native coin
    BankSend { to_address: String, denom: String, amount: u128 },
}

/// The message sending `amount` of `asset` to `recipient`.
pub fn build_transfer_asset_msg(asset: &Asset, amount: u128, recipient: &String) -> (r: TransferMsg)
    ensures
        r == (match *asset {
            Asset::Cw20 { contract_addr } => TransferMsg::Cw20Transfer { contract_addr, recipient: *recipient, amount },
            Asset::Native { denom } => TransferMsg::BankSend { to_address: *recipient, denom, amount },
        }),
{
    match asset {
        Asset::Cw20 { contract_addr } => TransferMsg::Cw20Transfer {
            contract_addr: contract_addr.clone(),
            recipient: recipient.clone(),
            amount,
        },
        Asset::Native { denom } => TransferMsg::BankSend { to_address: recipient.clone(), denom: denom.clone(), amount },
    }
}

} // verus!
