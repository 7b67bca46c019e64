//! Who calls an operation, and on which accounts.

use vstd::prelude::*;
use crate::address::Address;

verus! {

/// Creating the configuration: the caller, who becomes the owner.
#[derive(Clone, Copy, Debug, PartialEq, Eq)]
pub struct Initialize {
    pub signer: Address,
}

/// Changing the configuration: the caller, who must be the owner.
#[derive(Clone, Copy, Debug, PartialEq, Eq)]
pub struct UpdateConfig {
    pub owner: Address,
}

/// Opening an order on the native asset: the opener.
#[derive(Clone, Copy, Debug, PartialEq, Eq)]
pub struct OpenOrderSol {
    pub user: Address,
}

/// Opening an order on a token: the opener, the token that is presented, and
/// the token of the balance that the opener pays from.
#[derive(Clone, Copy, Debug, PartialEq, Eq)]
pub struct OpenOrderSpl {
    pub user: Address,
    pub token_mint: Address,
    pub user_token_mint: Address,
}

/// Executing an order on a token: the order's address, who is paid, the
/// caller, and who gets back what the custody account was opened with.
#[derive(Clone, Copy, Debug, PartialEq, Eq)]
pub struct ExecuteOrderSpl {
    pub order: Address,
    pub target: Address,
    pub executor: Address,
    pub refund_receiver: Address,
}

/// Executing an order on the native asset: the order's address, who is paid,
/// the caller, and who gets back what the order's account was opened with.
#[derive(Clone, Copy, Debug, PartialEq, Eq)]
pub struct ExecuteOrderSol {
    pub order: Address,
    pub target_sol: Address,
    pub executor: Address,
    pub refund_receiver: Address,
}

/// Cancelling an order on the native asset: the order's address, the
/// caller, and who is refunded.
#[derive(Clone, Copy, Debug, PartialEq, Eq)]
pub struct CancelOrderSol {
    pub order: Address,
    pub user: Address,
    pub refund_receiver: Address,
}

/// Cancelling an order on a token: the order's address, the caller, and who
/// is refunded.
#[derive(Clone, Copy, Debug, PartialEq, Eq)]
pub struct CancelOrderSpl {
    pub order: Address,
    pub user: Address,
    pub refund_receiver: Address,
}

} // verus!
