//! Balances: how much of each asset each holder has.

use vstd::prelude::*;
use crate::address::Address;

verus! {

/// One holder's amount of one asset.
#[derive(Clone, Copy, Debug, PartialEq, Eq)]
pub struct Holding {
    pub holder: Address,
    pub asset: Address,
    pub amount: u64,
}

/// What a balance is kept under: the holder and the asset.
pub type BalanceKey = (Seq<u8>, Seq<u8>);

/// The key of a holding.
pub open spec fn key_of(h: Holding) -> BalanceKey {
    (h.holder@, h.asset@)
}

/// Whether some holding in the list has the key.
pub open spec fn has_key(s: Seq<Holding>, k: BalanceKey) -> bool {
    exists|i: int| 0 <= i < s.len() && key_of(#[trigger] s[i]) == k
}

/// The place of a holding with the key.
pub open spec fn place_of(s: Seq<Holding>, k: BalanceKey) -> int {
    choose|i: int| 0 <= i < s.len() && key_of(#[trigger] s[i]) == k
}

/// The amount kept under the key: zero where there is no holding.
pub open spec fn amount_under(s: Seq<Holding>, k: BalanceKey) -> u64 {
    if has_key(s, k) {
        s[place_of(s, k)].amount
    } else {
        0
    }
}

/// No two holdings in the list have the same key.
pub open spec fn distinct_keys(s: Seq<Holding>) -> bool {
    forall|i: int, j: int|
        0 <= i < s.len() && 0 <= j < s.len() && key_of(#[trigger] s[i]) == key_of(#[trigger] s[j])
            ==> i == j
}

/// With distinct keys, the amount under the key of a holding is that holding's.
pub proof fn lemma_amount_at_place(s: Seq<Holding>, i: int)
    requires
        distinct_keys(s),
        0 <= i < s.len(),
    ensures
        has_key(s, key_of(s[i])),
        amount_under(s, key_of(s[i])) == s[i].amount,
{
    let k = key_of(s[i]);
    assert(has_key(s, k));
    let j = place_of(s, k);
    assert(key_of(s[j]) == key_of(s[i]));
}

/// A table of balances. A pair of holder and asset that was never credited
/// has the balance zero.
pub struct Balances {
    entries: Vec<Holding>,
}

impl View for Balances {
    type V = Map<BalanceKey, u64>;

    /// The balance of every pair of holder and asset.
    closed spec fn view(&self) -> Map<BalanceKey, u64> {
        Map::total(|k: BalanceKey| amount_under(self.entries@, k))
    }
}

impl Balances {
    /// No pair of holder and asset is listed twice.
    pub closed spec fn wf(&self) -> bool {
        distinct_keys(self.entries@)
    }

    /// Every pair of holder and asset has a balance.
    pub proof fn lemma_total(&self)
        ensures
            forall|k: BalanceKey| self@.dom().contains(k),
    {
    }

    /// The table in which every balance is zero.
    pub fn new() -> (r: Balances)
        ensures
            r.wf(),
            r@ == Map::<BalanceKey, u64>::total(|k: BalanceKey| 0u64),
    {
        let r = Balances { entries: Vec::new() };
        assert(r@ =~= Map::<BalanceKey, u64>::total(|k: BalanceKey| 0u64));
        r
    }

    /// Where the pair is listed, if it is.
    fn find(&self, holder: &Address, asset: &Address) -> (r: Option<usize>)
        ensures
            match r {
                Some(i) => i < self.entries@.len() && key_of(self.entries@[i as int]) == (
                    holder@,
                    asset@,
                ),
                None => !has_key(self.entries@, (holder@, asset@)),
            },
    {
        let mut i: usize = 0;
        while i < self.entries.len()
            invariant
                i <= self.entries@.len(),
                forall|j: int| 0 <= j < i ==> key_of(#[trigger] self.entries@[j]) != (holder@, asset@),
            decreases self.entries@.len() - i,
        {
            if self.entries[i].holder.same(holder) && self.entries[i].asset.same(asset) {
                return Some(i);
            }
            i += 1;
        }
        None
    }

    /// The balance of the holder in the asset.
    pub fn get(&self, holder: &Address, asset: &Address) -> (r: u64)
        requires
            self.wf(),
        ensures
            r == self@[(holder@, asset@)],
    {
        match self.find(holder, asset) {
            Some(i) => {
                proof {
                    lemma_amount_at_place(self.entries@, i as int);
                }
                self.entries[i].amount
            },
            None => 0,
        }
    }

    /// Sets the balance of the holder in the asset, and no other.
    pub fn set(&mut self, holder: &Address, asset: &Address, amount: u64)
        requires
            old(self).wf(),
        ensures
            final(self).wf(),
            final(self)@ == old(self)@.insert((holder@, asset@), amount),
    {
        let ghost before = self.entries@;
        let ghost key = (holder@, asset@);
        let entry = Holding { holder: *holder, asset: *asset, amount };
        match self.find(holder, asset) {
            Some(i) => {
                self.entries.set(i, entry);
                proof {
                    let after = self.entries@;
                    assert forall|a: int, b: int|
                        0 <= a < after.len() && 0 <= b < after.len() && key_of(#[trigger] after[a])
                            == key_of(#[trigger] after[b]) implies a == b by {
                        assert(key_of(after[a]) == key_of(before[a]));
                        assert(key_of(after[b]) == key_of(before[b]));
                    }
                    assert forall|k: BalanceKey|
                        amount_under(after, k) == (if k == key {
                            amount
                        } else {
                            amount_under(before, k)
                        }) by {
                        lemma_set_at(before, after, i as int, k);
                    }
                }
            },
            None => {
                self.entries.push(entry);
                proof {
                    let after = self.entries@;
                    assert forall|a: int, b: int|
                        0 <= a < after.len() && 0 <= b < after.len() && key_of(#[trigger] after[a])
                            == key_of(#[trigger] after[b]) implies a == b by {
                        if a < before.len() {
                            assert(key_of(before[a]) == key_of(after[a]));
                        }
                        if b < before.len() {
                            assert(key_of(before[b]) == key_of(after[b]));
                        }
                    }
                    assert forall|k: BalanceKey|
                        amount_under(after, k) == (if k == key {
                            amount
                        } else {
                            amount_under(before, k)
                        }) by {
                        lemma_push(before, after, k);
                    }
                }
            },
        }
        assert(self@ =~= old(self)@.insert(key, amount));
    }
}

/// Replacing one holding by another with the same key changes the amount
/// under that key and no other.
proof fn lemma_set_at(before: Seq<Holding>, after: Seq<Holding>, i: int, k: BalanceKey)
    requires
        distinct_keys(before),
        distinct_keys(after),
        0 <= i < before.len(),
        after.len() == before.len(),
        key_of(after[i]) == key_of(before[i]),
        forall|j: int| 0 <= j < before.len() && j != i ==> after[j] == before[j],
    ensures
        amount_under(after, k) == (if k == key_of(before[i]) {
            after[i].amount
        } else {
            amount_under(before, k)
        }),
{
    if k == key_of(before[i]) {
        lemma_amount_at_place(after, i);
    } else if has_key(before, k) {
        let j = place_of(before, k);
        assert(key_of(after[j]) == k);
        lemma_amount_at_place(after, j);
        lemma_amount_at_place(before, j);
    } else {
        if has_key(after, k) {
            let j = place_of(after, k);
            assert(key_of(before[j]) == k);
        }
    }
}

/// Adding a holding under a key that was not listed sets the amount under
/// that key and no other.
proof fn lemma_push(before: Seq<Holding>, after: Seq<Holding>, k: BalanceKey)
    requires
        distinct_keys(before),
        distinct_keys(after),
        after.len() == before.len() + 1,
        forall|j: int| 0 <= j < before.len() ==> after[j] == before[j],
        !has_key(before, key_of(after[before.len() as int])),
    ensures
        amount_under(after, k) == (if k == key_of(after[before.len() as int]) {
            after[before.len() as int].amount
        } else {
            amount_under(before, k)
        }),
{
    let n = before.len() as int;
    if k == key_of(after[n]) {
        lemma_amount_at_place(after, n);
    } else if has_key(before, k) {
        let j = place_of(before, k);
        assert(key_of(after[j]) == k);
        lemma_amount_at_place(after, j);
        lemma_amount_at_place(before, j);
    } else {
        if has_key(after, k) {
            let j = place_of(after, k);
            assert(key_of(before[j]) == k);
        }
    }
}

} // verus!
