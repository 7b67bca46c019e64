//! The reasons for which an operation is rejected.

use vstd::prelude::*;

verus! {

/// Why an operation was rejected. A rejected operation changes nothing.
#[derive(Clone, Copy, Debug, PartialEq, Eq, Structural)]
pub enum CustomError {
    /// The fee rate is not below 10000 basis points.
    InvalidConfiguration,
    /// A request to open an order is malformed, or its expiry is not in the future.
    InvalidParameter,
    /// Execution was asked for at or after the order's expiry.
    ExpiryEarlier,
    /// An amount does not fit in 64 bits.
    Overflow,
    /// The opener holds less than the amount to lock, or the payout would be zero.
    InsufficientFunds,
    /// The caller does not have the role that the operation asks for.
    Unauthorized,
    /// The refund receiver is not the order's sender.
    InvalidRefundReceiver,
    /// The record to create is already there.
    AccountAlreadyExists,
    /// The record to work on is not there.
    AccountNotFound,
}

/// What an error says of itself.
pub open spec fn message_of(e: CustomError) -> Seq<char> {
    match e {
        CustomError::InvalidConfiguration => "Platform fee must be between 0 and 10000."@,
        CustomError::InvalidParameter => "Invalid parameter"@,
        CustomError::ExpiryEarlier => "Expiry time must be in the future."@,
        CustomError::Overflow => "math over flow."@,
        CustomError::InsufficientFunds => "Insufficient funds for the operation."@,
        CustomError::Unauthorized => "Only the sender or the owner may do this."@,
        CustomError::InvalidRefundReceiver => "Invalid refund receiver."@,
        CustomError::AccountAlreadyExists => "The account exists already."@,
        CustomError::AccountNotFound => "The account does not exist."@,
    }
}

impl CustomError {
    /// What the error says of itself.
    pub fn message(&self) -> (r: &'static str)
        ensures
            r@ == message_of(*self),
    {
        match self {
            CustomError::InvalidConfiguration => "Platform fee must be between 0 and 10000.",
            CustomError::InvalidParameter => "Invalid parameter",
            CustomError::ExpiryEarlier => "Expiry time must be in the future.",
            CustomError::Overflow => "math over flow.",
            CustomError::InsufficientFunds => "Insufficient funds for the operation.",
            CustomError::Unauthorized => "Only the sender or the owner may do this.",
            CustomError::InvalidRefundReceiver => "Invalid refund receiver.",
            CustomError::AccountAlreadyExists => "The account exists already.",
            CustomError::AccountNotFound => "The account does not exist.",
        }
    }
}

} // verus!
