//! Amounts of a fungible token.

use vstd::prelude::*;

verus! {

/// An amount of one denomination.
#[derive(Clone, Debug, PartialEq, Eq)]
pub struct Coin {
    pub denom: String,
    pub amount: u128,
}

/// The mathematical value of a [`Coin`].
pub struct CoinView {
    pub denom: Seq<char>,
    pub amount: u128,
}

impl View for Coin {
    type V = CoinView;

    open spec fn view(&self) -> CoinView {
        CoinView { denom: self.denom@, amount: self.amount }
    }
}

impl DeepView for Coin {
    type V = CoinView;

    open spec fn deep_view(&self) -> CoinView {
        self@
    }
}

impl Coin {
    /// A coin of `amount` units of `denom`.
    pub fn new(amount: u128, denom: &str) -> (coin: Coin)
        ensures
            coin@ == (CoinView { denom: denom@, amount }),
    {
        Coin { denom: denom.to_owned(), amount }
    }
}

/// The one coin of `amount` units of `denom`.
pub fn coins(amount: u128, denom: &str) -> (list: Vec<Coin>)
    ensures
        list.deep_view() == seq![CoinView { denom: denom@, amount }],
{
    let mut list: Vec<Coin> = Vec::new();
    list.push(Coin::new(amount, denom));
    assert(list.deep_view() =~= seq![CoinView { denom: denom@, amount }]);
    list
}

/// Whether `index` is where `balance` first holds a coin of `denom`.
pub open spec fn first_at(balance: Seq<CoinView>, denom: Seq<char>, index: int) -> bool {
    &&& 0 <= index < balance.len()
    &&& balance[index].denom == denom
    &&& forall|before: int| 0 <= before < index ==> balance[before].denom != denom
}

/// Whether `balance` holds a coin of `denom`.
pub open spec fn holds(balance: Seq<CoinView>, denom: Seq<char>) -> bool {
    exists|index: int| first_at(balance, denom, index)
}

/// Where `balance` first holds a coin of `denom`, if it holds one.
pub open spec fn first_of(balance: Seq<CoinView>, denom: Seq<char>) -> int {
    choose|index: int| first_at(balance, denom, index)
}

/// What one coin counts for in `denom`: its amount, if it is a coin of
/// `denom`.
pub open spec fn counts(coin: CoinView, denom: Seq<char>) -> nat {
    if coin.denom == denom {
        coin.amount as nat
    } else {
        0
    }
}

/// How much of `denom` the coins of `balance` add up to.
pub open spec fn held(balance: Seq<CoinView>, denom: Seq<char>) -> nat
    decreases balance.len(),
{
    if balance.len() == 0 {
        0
    } else {
        held(balance.drop_last(), denom) + counts(balance.last(), denom)
    }
}

/// Whether `paid` more of `denom` can be credited to `balance`: the coin that
/// takes the credit must stay within the range of an amount.
pub open spec fn creditable(balance: Seq<CoinView>, denom: Seq<char>, paid: u128) -> bool {
    holds(balance, denom) ==> balance[first_of(balance, denom)].amount + paid <= u128::MAX
}

/// `balance` with `paid` more of `denom`: the first coin of `denom` grows by
/// `paid`, and a balance without such a coin gets one at its end.
pub open spec fn credit(balance: Seq<CoinView>, denom: Seq<char>, paid: u128) -> Seq<CoinView> {
    if holds(balance, denom) {
        let index = first_of(balance, denom);
        balance.update(
            index,
            CoinView { denom, amount: (balance[index].amount + paid) as u128 },
        )
    } else {
        balance.push(CoinView { denom, amount: paid })
    }
}

/// A balance first holds a denomination at one place only.
pub proof fn lemma_first_is_unique(balance: Seq<CoinView>, denom: Seq<char>, index: int)
    requires
        first_at(balance, denom, index),
    ensures
        holds(balance, denom),
        first_of(balance, denom) == index,
{
    let chosen = first_of(balance, denom);
    assert(first_at(balance, denom, chosen));
    if chosen < index {
        assert(balance[chosen].denom != denom);
    } else if index < chosen {
        assert(balance[index].denom != denom);
    }
}

/// Credits `paid` of `denom` to `balance`, unless the coin that takes the
/// credit would leave the range of an amount: then `balance` stays as it is
/// and the answer is `false`.
pub fn credit_balance(balance: &mut Vec<Coin>, denom: &String, paid: u128) -> (credited: bool)
    ensures
        credited == creditable(old(balance).deep_view(), denom@, paid),
        credited ==> final(balance).deep_view() == credit(
            old(balance).deep_view(),
            denom@,
            paid,
        ),
        !credited ==> final(balance).deep_view() == old(balance).deep_view(),
{
    let ghost before = balance.deep_view();
    let mut index: usize = 0;
    while index < balance.len()
        invariant
            index <= balance.len(),
            balance.deep_view() == before,
            before == old(balance).deep_view(),
            forall|earlier: int| 0 <= earlier < index ==> before[earlier].denom != denom@,
        decreases balance.len() - index,
    {
        if balance[index].denom == *denom {
            proof {
                lemma_first_is_unique(before, denom@, index as int);
            }
            let amount: u128 = balance[index].amount;
            if paid > u128::MAX - amount {
                return false;
            }
            let coin = Coin { denom: denom.clone(), amount: amount + paid };
            balance.set(index, coin);
            assert(balance.deep_view() =~= credit(before, denom@, paid));
            return true;
        }
        index += 1;
    }
    assert(!holds(before, denom@));
    let coin = Coin { denom: denom.clone(), amount: paid };
    balance.push(coin);
    assert(balance.deep_view() =~= credit(before, denom@, paid));
    true
}

/// Replacing one coin changes what is held of a denomination by what the
/// two coins differ in it.
proof fn lemma_held_update(balance: Seq<CoinView>, index: int, coin: CoinView, denom: Seq<char>)
    requires
        0 <= index < balance.len(),
    ensures
        held(balance.update(index, coin), denom) + counts(balance[index], denom) == held(
            balance,
            denom,
        ) + counts(coin, denom),
    decreases balance.len(),
{
    let updated = balance.update(index, coin);
    if index == balance.len() - 1 {
        assert(updated.drop_last() =~= balance.drop_last());
    } else {
        assert(updated.drop_last() =~= balance.drop_last().update(index, coin));
        lemma_held_update(balance.drop_last(), index, coin, denom);
    }
}

/// A credit raises what is held of the credited denomination by what was
/// paid, and leaves every other denomination as it was.
pub proof fn lemma_credit_adds(
    balance: Seq<CoinView>,
    denom: Seq<char>,
    paid: u128,
    other: Seq<char>,
)
    requires
        creditable(balance, denom, paid),
    ensures
        held(credit(balance, denom, paid), denom) == held(balance, denom) + paid,
        other != denom ==> held(credit(balance, denom, paid), other) == held(balance, other),
{
    if holds(balance, denom) {
        let index = first_of(balance, denom);
        let coin = CoinView { denom, amount: (balance[index].amount + paid) as u128 };
        lemma_held_update(balance, index, coin, denom);
        lemma_held_update(balance, index, coin, other);
    } else {
        let coin = CoinView { denom, amount: paid };
        assert(balance.push(coin).drop_last() =~= balance);
    }
}

} // verus!
