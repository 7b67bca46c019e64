//! The records that are kept: the platform's configuration and the orders.

use vstd::prelude::*;
use crate::address::{zero_bytes, Address};

verus! {

/// The one configuration of the platform.
#[derive(Clone, Copy, Debug, PartialEq, Eq)]
pub struct GlobalConfig {
    /// Who may change the configuration and execute orders.
    pub owner: Address,
    /// The fee in basis points of the locked amount, below 10000.
    pub platform_fee: u16,
    /// Who receives the fees.
    pub treasury: Address,
    /// Kept and changed, but no operation reads it.
    pub paused: bool,
    /// Room for later fields.
    pub reserved: [u8; 128],
}

impl GlobalConfig {
    /// The number of bytes of a stored configuration, without its tag.
    pub const SIZE: usize = 32 + 2 + 32 + 1 + 128;

    /// The fee rate is below 10000 basis points.
    pub open spec fn wf(&self) -> bool {
        self.platform_fee < 10000
    }

    /// Whether the pause flag is set. No operation of this library consults
    /// it: a caller that wants to gate on it tests it before calling.
    pub fn is_paused(&self) -> (r: bool)
        ensures
            r == self.paused,
    {
        self.paused
    }
}

/// What an opener asks for.
#[derive(Clone, Copy, Debug, PartialEq, Eq)]
pub struct OpenOrderParams {
    pub from_token: Address,
    pub from_chain_id: u64,
    pub amount_in: u64,
    pub to_chain_id: u64,
    pub to_token: [u8; 32],
    pub recipient: [u8; 32],
    pub expiry: i64,
    pub amount_out: [u8; 32],
}

/// An open order: what was locked, by whom, for what, until when.
#[derive(Clone, Copy, Debug, PartialEq, Eq)]
pub struct LimitOrder {
    /// The asset that is locked.
    pub from_token: Address,
    /// The chain on which it is locked.
    pub from_chain_id: u64,
    /// How much is locked.
    pub amount_in: u64,
    /// The chain on which the order is to be filled.
    pub to_chain_id: u64,
    /// The asset wanted on that chain.
    pub to_token: [u8; 32],
    /// Who receives it there.
    pub recipient: [u8; 32],
    /// Who opened the order, and alone is refunded.
    pub sender: Address,
    /// Until when the order can be executed.
    pub expiry: i64,
    /// The amount expected on the other chain; carried, not enforced.
    pub amount_out: [u8; 32],
    /// The bump seed of the order's address.
    pub bump: u8,
}

impl LimitOrder {
    /// The number of bytes of a stored order, without its tag.
    pub const SIZE: usize = 32 + 8 + 8 + 8 + 32 + 32 + 32 + 8 + 32 + 1;

    /// What holds of every order that was opened: it is locked on this
    /// chain, the amount is positive, and the destination chain, asset and
    /// recipient are not zero.
    pub open spec fn wf(&self) -> bool {
        &&& self.from_chain_id == 10002
        &&& self.amount_in > 0
        &&& self.to_chain_id != 0
        &&& self.to_token@ != zero_bytes()
        &&& self.recipient@ != zero_bytes()
    }
}

/// The order that a request makes once it is accepted.
pub open spec fn order_from(params: OpenOrderParams, sender: Address, bump: u8) -> LimitOrder {
    LimitOrder {
        from_token: params.from_token,
        from_chain_id: params.from_chain_id,
        amount_in: params.amount_in,
        to_chain_id: params.to_chain_id,
        to_token: params.to_token,
        recipient: params.recipient,
        sender,
        expiry: params.expiry,
        amount_out: params.amount_out,
        bump,
    }
}

/// Builds the order of an accepted request.
pub fn add_order(params: &OpenOrderParams, user: &Address, bump: u8) -> (order: LimitOrder)
    ensures
        order == order_from(*params, *user, bump),
{
    LimitOrder {
        from_token: params.from_token,
        from_chain_id: params.from_chain_id,
        amount_in: params.amount_in,
        to_chain_id: params.to_chain_id,
        to_token: params.to_token,
        recipient: params.recipient,
        sender: *user,
        expiry: params.expiry,
        amount_out: params.amount_out,
        bump,
    }
}

} // verus!
