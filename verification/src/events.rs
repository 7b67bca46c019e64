//! What an operation that succeeded tells its observers.

use vstd::prelude::*;
use crate::address::Address;

verus! {

/// The configuration was created.
#[derive(Clone, Copy, Debug, PartialEq, Eq)]
pub struct Initialized {
    pub owner: Address,
    pub platform_fee: u16,
    pub treasury: Address,
    pub paused: bool,
}

/// The configuration was changed.
#[derive(Clone, Copy, Debug, PartialEq, Eq)]
pub struct ConfigUpdated {
    pub owner: Address,
    pub platform_fee: u16,
    pub treasury: Address,
    pub paused: bool,
}

/// An order was opened under the address.
#[derive(Clone, Copy, Debug, PartialEq, Eq)]
pub struct OrderOpened {
    pub order_pubkey: Address,
}

/// The order under the address was cancelled by the caller named.
#[derive(Clone, Copy, Debug, PartialEq, Eq)]
pub struct OrderCancelled {
    pub order_pubkey: Address,
    pub by: Address,
}

/// The order under the address was executed by the caller named. The volume
/// is what the caller reported; nothing checks it.
#[derive(Clone, Copy, Debug, PartialEq, Eq)]
pub struct OrderExecuted {
    pub order_pubkey: Address,
    pub by: Address,
    pub native_token_volume: u64,
}

} // verus!
