//! Small helpers shared by the contracts.
use vstd::prelude::*;
use std::collections::HashSet;
use std::hash::Hash;
use crate::error::ContractError;

verus! {

/// An amount of a native asset.
#[derive(Clone, Debug)]
pub struct Coin {
    pub denom: String,
    pub amount: u128,
}

/// The amount of `denom` sent, when the funds are exactly one coin of that denom.
pub fn get_denom_amount_from_coins(coins: &Vec<Coin>, denom: &String) -> (r: Result<u128, ContractError>)
    ensures
        (coins@.len() == 1 && coins@[0].denom@ == denom@) ==> r == Ok::<u128, ContractError>(coins@[0].amount),
        !(coins@.len() == 1 && coins@[0].denom@ == denom@) ==> r == Err::<u128, ContractError>(ContractError::InvalidCoinsSent { denom: *denom }),
{
    if coins.len() == 1 && coins[0].denom == *denom {
        Ok(coins[0].amount)
    } else {
        Err(ContractError::InvalidCoinsSent { denom: denom.clone() })
    }
}

/// `x` is a clone of some element of `d`.
pub open spec fn is_clone_from<T: Clone>(d: Seq<T>, x: T) -> bool {
    exists|i: int| 0 <= i < d.len() && #[trigger] cloned::<T>(d[i], x)
}

/// `s` holds a clone of `a`.
pub open spec fn has_clone_of<T: Clone>(s: Set<T>, a: T) -> bool {
    exists|x: T| #[trigger] s.contains(x) && cloned::<T>(a, x)
}

/// Every element of `s` is a clone of an element of `d`, and every element of `d` has a
/// clone in `s`.
pub open spec fn holds_clones_of<T: Clone>(s: Set<T>, d: Seq<T>) -> bool {
    &&& forall|x: T| #[trigger] s.contains(x) ==> is_clone_from(d, x)
    &&& forall|i: int| 0 <= i < d.len() ==> #[trigger] has_clone_of(s, d[i])
}

proof fn lemma_holds_clones_push<T: Clone>(s: Set<T>, d: Seq<T>, a: T, v: T)
    requires
        holds_clones_of(s, d),
        cloned::<T>(a, v),
    ensures
        holds_clones_of(s.insert(v), d.push(a)),
{
    let s1 = s.insert(v);
    let d1 = d.push(a);
    assert forall|x: T| #[trigger] s1.contains(x) implies is_clone_from(d1, x) by {
        if x == v {
            assert(d1[d.len() as int] == a);
            assert(cloned::<T>(d1[d.len() as int], x));
        } else {
            assert(s.contains(x));
            assert(is_clone_from(d, x));
            let j = choose|j: int| 0 <= j < d.len() && #[trigger] cloned::<T>(d[j], x);
            assert(d1[j] == d[j]);
            assert(cloned::<T>(d1[j], x));
        }
    }
    assert forall|j: int| 0 <= j < d1.len() implies #[trigger] has_clone_of(s1, d1[j]) by {
        if j == d.len() {
            assert(s1.contains(v) && cloned::<T>(d1[j], v));
        } else {
            assert(d1[j] == d[j]);
            assert(has_clone_of(s, d[j]));
            let x = choose|x: T| #[trigger] s.contains(x) && cloned::<T>(d[j], x);
            assert(s1.contains(x) && cloned::<T>(d1[j], x));
        }
    }
}

/// Build a hashset from array data.
pub fn hashset<T: Eq + Clone + Hash>(data: &[T]) -> (r: HashSet<T>)
    ensures
        vstd::std_specs::hash::obeys_key_model::<T>() ==> holds_clones_of(r@, data@),
{
    broadcast use vstd::std_specs::hash::axiom_random_state_builds_valid_hashers;
    let mut set: HashSet<T> = HashSet::new();
    let n = data.len();
    let mut i: usize = 0;
    while i < n
        invariant
            n == data@.len(),
            i <= n,
            vstd::std_specs::hash::obeys_key_model::<T>() ==> holds_clones_of(set@, data@.take(i as int)),
        decreases n - i,
    {
        let v = data[i].clone();
        assert(cloned::<T>(data@[i as int], v));
        let ghost before = set@;
        set.insert(v);
        proof {
            if vstd::std_specs::hash::obeys_key_model::<T>() {
                assert(set@ == before.insert(v));
                assert(data@.take(i as int + 1) =~= data@.take(i as int).push(data@[i as int]));
                lemma_holds_clones_push(before, data@.take(i as int), data@[i as int], v);
            }
        }
        i = i + 1;
    }
    assert(data@.take(n as int) =~= data@);
    set
}

} // verus!
