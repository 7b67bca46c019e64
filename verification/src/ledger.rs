//! The state that the operations work on: the configuration, the open
//! orders, what each holder has, and what each order's custody holds.

pub mod close;
pub mod open;
pub mod setup;

use vstd::prelude::*;
use crate::address::Address;
use crate::balances::{BalanceKey, Balances};
use crate::book::OrderBook;
use crate::error::CustomError;
use crate::records::{GlobalConfig, LimitOrder};

verus! {

/// The state as the contracts speak of it.
pub struct LedgerView {
    /// The program under which the orders' addresses are derived.
    pub program_id: Seq<u8>,
    /// The configuration, once it is created.
    pub config: Option<GlobalConfig>,
    /// The open orders, each under its address.
    pub orders: Map<Seq<u8>, LimitOrder>,
    /// What each holder has of each asset.
    pub wallets: Map<BalanceKey, u64>,
    /// What the custody of each order's address holds of each asset.
    pub custody: Map<BalanceKey, u64>,
}

/// What custody holds under a key while the orders are as given: the locked
/// amount of the order at that address, in that order's asset, else nothing.
pub open spec fn escrowed(orders: Map<Seq<u8>, LimitOrder>, k: BalanceKey) -> u64 {
    if orders.dom().contains(k.0) && orders[k.0].from_token@ == k.1 {
        orders[k.0].amount_in
    } else {
        0
    }
}

/// What holds of the state between operations: the fee rate is below 10000
/// basis points; every open order is as it was accepted, with a positive
/// amount; custody holds exactly the locked amount of each open order, and
/// nothing else.
pub open spec fn consistent(v: LedgerView) -> bool {
    &&& v.config matches Some(c) ==> c.wf()
    &&& forall|k: BalanceKey| #[trigger] v.wallets.dom().contains(k)
    &&& forall|k: BalanceKey| #[trigger] v.custody.dom().contains(k)
    &&& forall|k: BalanceKey| #[trigger] v.custody[k] == escrowed(v.orders, k)
    &&& forall|a: Seq<u8>| #[trigger] v.orders.dom().contains(a) ==> v.orders[a].wf()
}

/// The state of the platform.
pub struct Ledger {
    program_id: Address,
    config: Option<GlobalConfig>,
    orders: OrderBook,
    wallets: Balances,
    custody: Balances,
}

impl View for Ledger {
    type V = LedgerView;

    closed spec fn view(&self) -> LedgerView {
        LedgerView {
            program_id: self.program_id@,
            config: self.config,
            orders: self.orders@,
            wallets: self.wallets@,
            custody: self.custody@,
        }
    }
}

impl Ledger {
    /// The tables are in order and the state is consistent.
    pub closed spec fn wf(&self) -> bool {
        &&& self.orders.wf()
        &&& self.wallets.wf()
        &&& self.custody.wf()
        &&& consistent(self@)
    }

    /// What holds of a state in order.
    pub proof fn lemma_wf_consistent(&self)
        requires
            self.wf(),
        ensures
            consistent(self@),
    {
    }

    /// The state before anything happened: no configuration, no order, no
    /// balance.
    pub fn new(program_id: Address) -> (r: Ledger)
        ensures
            r.wf(),
            r@.program_id == program_id@,
            r@.config is None,
            r@.orders == Map::<Seq<u8>, LimitOrder>::empty(),
            r@.wallets == Map::<BalanceKey, u64>::total(|k: BalanceKey| 0u64),
            r@.custody == Map::<BalanceKey, u64>::total(|k: BalanceKey| 0u64),
    {
        Ledger {
            program_id,
            config: None,
            orders: OrderBook::new(),
            wallets: Balances::new(),
            custody: Balances::new(),
        }
    }

    /// The program under which the orders' addresses are derived.
    pub fn program_id(&self) -> (r: Address)
        ensures
            r@ == self@.program_id,
    {
        self.program_id
    }

    /// The configuration, once it is created.
    pub fn config(&self) -> (r: Option<GlobalConfig>)
        ensures
            r == self@.config,
    {
        self.config
    }

    /// The open order under the address, if there is one.
    pub fn order(&self, address: &Address) -> (r: Option<LimitOrder>)
        requires
            self.wf(),
        ensures
            r is Some == self@.orders.dom().contains(address@),
            r matches Some(o) ==> o == self@.orders[address@],
    {
        self.orders.get(address)
    }

    /// What the holder has of the asset.
    pub fn balance(&self, holder: &Address, asset: &Address) -> (r: u64)
        requires
            self.wf(),
        ensures
            r == self@.wallets[(holder@, asset@)],
    {
        self.wallets.get(holder, asset)
    }

    /// What the custody of the order's address holds of the asset.
    pub fn custody_balance(&self, order: &Address, asset: &Address) -> (r: u64)
        requires
            self.wf(),
        ensures
            r == self@.custody[(order@, asset@)],
            r == escrowed(self@.orders, (order@, asset@)),
    {
        assert(self@.custody[(order@, asset@)] == escrowed(self@.orders, (order@, asset@)));
        self.custody.get(order, asset)
    }

    /// Adds to what the holder has of the asset. Fails with `Overflow`, and
    /// changes nothing, where the balance would not fit in 64 bits.
    pub fn deposit(&mut self, holder: &Address, asset: &Address, amount: u64) -> (r: Result<
        (),
        CustomError,
    >)
        requires
            old(self).wf(),
        ensures
            final(self).wf(),
            (final(self)@, r) == deposit_model(old(self)@, *holder, *asset, amount),
    {
        let had = self.wallets.get(holder, asset);
        match had.checked_add(amount) {
            None => Err(CustomError::Overflow),
            Some(sum) => {
                self.wallets.set(holder, asset, sum);
                proof {
                    self.wallets.lemma_total();
                    assert(self@ == deposit_model(old(self)@, *holder, *asset, amount).0);
                }
                Ok(())
            },
        }
    }
}

/// What a deposit makes of the state, and what it returns.
pub open spec fn deposit_model(pre: LedgerView, holder: Address, asset: Address, amount: u64) -> (
    LedgerView,
    Result<(), CustomError>,
) {
    let key = (holder@, asset@);
    if pre.wallets[key] + amount > u64::MAX {
        (pre, Err(CustomError::Overflow))
    } else {
        (
            LedgerView { wallets: pre.wallets.insert(key, (pre.wallets[key] + amount) as u64), ..pre },
            Ok(()),
        )
    }
}

} // verus!
