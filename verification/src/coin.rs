//! Amounts of a token, and what the bank holds for the contract.

use vstd::prelude::*;

verus! {

/// An amount of one denomination.
#[derive(Clone, Debug, PartialEq)]
pub struct Coin {
    pub denom: String,
    pub amount: u128,
}

/// An order to the bank: pay `amount` to `to_address`.
#[derive(Clone, Debug, PartialEq)]
pub struct BankSend {
    pub to_address: String,
    pub amount: Coin,
}

/// What a [`Coin`] stands for.
pub struct CoinView {
    pub denom: Seq<char>,
    pub amount: nat,
}

/// What a [`BankSend`] stands for.
pub struct BankSendView {
    pub to_address: Seq<char>,
    pub amount: CoinView,
}

impl View for Coin {
    type V = CoinView;

    open spec fn view(&self) -> CoinView {
        CoinView { denom: self.denom@, amount: self.amount as nat }
    }
}

impl View for BankSend {
    type V = BankSendView;

    open spec fn view(&self) -> BankSendView {
        BankSendView { to_address: self.to_address@, amount: self.amount@ }
    }
}

/// The coins as the model sees them.
pub open spec fn coins_view(coins: Seq<Coin>) -> Seq<CoinView> {
    coins.map_values(|c: Coin| c@)
}

/// Whether the coin at `i` is the first one of the denomination `denom`.
pub open spec fn is_first_of(coins: Seq<CoinView>, denom: Seq<char>, i: int) -> bool {
    &&& 0 <= i < coins.len()
    &&& coins[i].denom == denom
    &&& forall|j: int| 0 <= j < i ==> coins[j].denom != denom
}

/// What `coins` hold of `denom`: the amount of the first coin of that
/// denomination, and nothing where there is none.
pub open spec fn balance_of(coins: Seq<CoinView>, denom: Seq<char>) -> nat {
    if exists|i: int| is_first_of(coins, denom, i) {
        coins[choose|i: int| is_first_of(coins, denom, i)].amount
    } else {
        0
    }
}

/// What `coins` hold of `denom`.
pub fn query_balance(coins: &Vec<Coin>, denom: &String) -> (r: u128)
    ensures
        r == balance_of(coins_view(coins@), denom@),
{
    let ghost held = coins_view(coins@);
    let mut i: usize = 0;
    while i < coins.len()
        invariant
            i <= coins.len(),
            held == coins_view(coins@),
            held.len() == coins.len(),
            forall|j: int| 0 <= j < i ==> held[j].denom != denom@,
        decreases coins.len() - i,
    {
        assert(held[i as int] == coins@[i as int]@);
        if coins[i].denom == *denom {
            proof {
                assert(is_first_of(held, denom@, i as int));
                let p = choose|p: int| is_first_of(held, denom@, p);
                if p < i {
                    assert(held[p].denom != denom@);
                }
                if i < p {
                    assert(held[i as int].denom != denom@);
                }
            }
            return coins[i].amount;
        }
        i += 1;
    }
    proof {
        if exists|p: int| is_first_of(held, denom@, p) {
            let p = choose|p: int| is_first_of(held, denom@, p);
            assert(held[p].denom != denom@);
        }
    }
    0
}

} // verus!
