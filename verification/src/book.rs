//! The open orders, each under its address.

use vstd::prelude::*;
use crate::address::Address;
use crate::records::LimitOrder;

verus! {

/// An order and the address under which it is kept.
#[derive(Clone, Copy, Debug, PartialEq, Eq)]
pub struct OrderAccount {
    pub address: Address,
    pub order: LimitOrder,
}

/// Whether some order in the list is kept under the address.
pub open spec fn has_address(s: Seq<OrderAccount>, k: Seq<u8>) -> bool {
    exists|i: int| 0 <= i < s.len() && (#[trigger] s[i]).address@ == k
}

/// The place of an order kept under the address.
pub open spec fn place_of(s: Seq<OrderAccount>, k: Seq<u8>) -> int {
    choose|i: int| 0 <= i < s.len() && (#[trigger] s[i]).address@ == k
}

/// No two orders in the list are kept under the same address.
pub open spec fn distinct_addresses(s: Seq<OrderAccount>) -> bool {
    forall|i: int, j: int|
        0 <= i < s.len() && 0 <= j < s.len() && (#[trigger] s[i]).address@ == (
        #[trigger] s[j]).address@ ==> i == j
}

/// The orders of a list, each under its address.
pub open spec fn orders_of(s: Seq<OrderAccount>) -> Map<Seq<u8>, LimitOrder> {
    Map::new(|k: Seq<u8>| has_address(s, k), |k: Seq<u8>| s[place_of(s, k)].order)
}

/// With distinct addresses, the order under the address of an entry is that entry's.
pub proof fn lemma_order_at_place(s: Seq<OrderAccount>, i: int)
    requires
        distinct_addresses(s),
        0 <= i < s.len(),
    ensures
        orders_of(s).dom().contains(s[i].address@),
        orders_of(s)[s[i].address@] == s[i].order,
{
    let k = s[i].address@;
    assert(has_address(s, k));
    let j = place_of(s, k);
    assert(s[j].address@ == s[i].address@);
}

/// The open orders. An address holds at most one.
pub struct OrderBook {
    entries: Vec<OrderAccount>,
}

impl View for OrderBook {
    type V = Map<Seq<u8>, LimitOrder>;

    /// The open orders, each under its address.
    closed spec fn view(&self) -> Map<Seq<u8>, LimitOrder> {
        orders_of(self.entries@)
    }
}

impl OrderBook {
    /// No address is listed twice.
    pub closed spec fn wf(&self) -> bool {
        distinct_addresses(self.entries@)
    }

    /// How many orders are open.
    pub closed spec fn count(&self) -> nat {
        self.entries@.len()
    }

    /// The book without orders.
    pub fn new() -> (r: OrderBook)
        ensures
            r.wf(),
            r@ == Map::<Seq<u8>, LimitOrder>::empty(),
            r.count() == 0,
    {
        let r = OrderBook { entries: Vec::new() };
        assert(r@ =~= Map::<Seq<u8>, LimitOrder>::empty());
        r
    }

    /// How many orders are open.
    pub fn len(&self) -> (r: usize)
        ensures
            r == self.count(),
    {
        self.entries.len()
    }

    /// Where the address is listed, if it is.
    fn find(&self, address: &Address) -> (r: Option<usize>)
        ensures
            match r {
                Some(i) => i < self.entries@.len() && self.entries@[i as int].address@ == address@,
                None => !has_address(self.entries@, address@),
            },
    {
        let mut i: usize = 0;
        while i < self.entries.len()
            invariant
                i <= self.entries@.len(),
                forall|j: int| 0 <= j < i ==> (#[trigger] self.entries@[j]).address@ != address@,
            decreases self.entries@.len() - i,
        {
            if self.entries[i].address.same(address) {
                return Some(i);
            }
            i += 1;
        }
        None
    }

    /// The order kept under the address, if there is one.
    pub fn get(&self, address: &Address) -> (r: Option<LimitOrder>)
        requires
            self.wf(),
        ensures
            r is Some == self@.dom().contains(address@),
            r matches Some(order) ==> order == self@[address@],
    {
        match self.find(address) {
            Some(i) => {
                proof {
                    lemma_order_at_place(self.entries@, i as int);
                }
                Some(self.entries[i].order)
            },
            None => None,
        }
    }

    /// Keeps the order under the address, where the address is free; else
    /// changes nothing and returns `false`.
    pub fn insert(&mut self, address: &Address, order: LimitOrder) -> (r: bool)
        requires
            old(self).wf(),
        ensures
            final(self).wf(),
            r == !old(self)@.dom().contains(address@),
            r ==> final(self)@ == old(self)@.insert(address@, order),
            r ==> final(self).count() == old(self).count() + 1,
            !r ==> final(self)@ == old(self)@ && final(self).count() == old(self).count(),
    {
        let ghost before = self.entries@;
        match self.find(address) {
            Some(_) => false,
            None => {
                self.entries.push(OrderAccount { address: *address, order });
                proof {
                    let after = self.entries@;
                    let n = before.len() as int;
                    assert forall|a: int, b: int|
                        0 <= a < after.len() && 0 <= b < after.len() && (#[trigger] after[a]).address@
                            == (#[trigger] after[b]).address@ implies a == b by {
                        if a < n {
                            assert(before[a].address@ == after[a].address@);
                        }
                        if b < n {
                            assert(before[b].address@ == after[b].address@);
                        }
                    }
                    assert forall|k: Seq<u8>|
                        has_address(after, k) == (k == address@ || has_address(before, k)) by {
                        if has_address(before, k) {
                            let j = place_of(before, k);
                            assert(after[j].address@ == k);
                        }
                        if k == address@ {
                            assert(after[n].address@ == k);
                        }
                        if has_address(after, k) {
                            let j = place_of(after, k);
                            if j < n {
                                assert(before[j].address@ == k);
                            }
                        }
                    }
                    assert forall|k: Seq<u8>| has_address(after, k) implies orders_of(after)[k] == (
                    if k == address@ {
                        order
                    } else {
                        orders_of(before)[k]
                    }) by {
                        let j = place_of(after, k);
                        lemma_order_at_place(after, j);
                        if j < n {
                            assert(before[j] == after[j]);
                            lemma_order_at_place(before, j);
                        }
                    }
                    assert(orders_of(after) =~= orders_of(before).insert(address@, order));
                }
                true
            },
        }
    }

    /// Takes the order kept under the address out of the book and returns it;
    /// `None`, and nothing changed, where there is none.
    pub fn remove(&mut self, address: &Address) -> (r: Option<LimitOrder>)
        requires
            old(self).wf(),
        ensures
            final(self).wf(),
            r is Some == old(self)@.dom().contains(address@),
            r matches Some(order) ==> order == old(self)@[address@],
            final(self)@ == old(self)@.remove(address@),
            r is Some ==> final(self).count() + 1 == old(self).count(),
            r is None ==> final(self).count() == old(self).count(),
    {
        let ghost before = self.entries@;
        match self.find(address) {
            None => {
                assert(self@ =~= old(self)@.remove(address@));
                None
            },
            Some(i) => {
                proof {
                    lemma_order_at_place(before, i as int);
                }
                let taken = self.entries.remove(i);
                proof {
                    let after = self.entries@;
                    let n = after.len() as int;
                    assert forall|a: int| 0 <= a < n implies (#[trigger] after[a]) == before[if a
                        < i {
                        a
                    } else {
                        a + 1
                    }] by {}
                    assert forall|a: int, b: int|
                        0 <= a < n && 0 <= b < n && (#[trigger] after[a]).address@ == (
                        #[trigger] after[b]).address@ implies a == b by {
                        let a0 = if a < i { a } else { a + 1 };
                        let b0 = if b < i { b } else { b + 1 };
                        assert(before[a0].address@ == before[b0].address@);
                    }
                    assert forall|k: Seq<u8>|
                        has_address(after, k) == (k != address@ && has_address(before, k)) by {
                        if has_address(after, k) {
                            let j = place_of(after, k);
                            let j0 = if j < i { j } else { j + 1 };
                            assert(before[j0].address@ == k);
                        }
                        if k != address@ && has_address(before, k) {
                            let j0 = place_of(before, k);
                            let j = if j0 < i { j0 } else { j0 - 1 };
                            assert(after[j].address@ == k);
                        }
                    }
                    assert forall|k: Seq<u8>| has_address(after, k) implies orders_of(after)[k]
                        == orders_of(before)[k] by {
                        let j = place_of(after, k);
                        let j0 = if j < i { j } else { j + 1 };
                        lemma_order_at_place(after, j);
                        lemma_order_at_place(before, j0);
                    }
                    assert(orders_of(after) =~= orders_of(before).remove(address@));
                }
                Some(taken.order)
            },
        }
    }
}

} // verus!
