//! The platform fee: a share of the locked amount, in basis points.

use vstd::prelude::*;
use crate::error::CustomError;

verus! {

/// A fee rate is a number of basis points below this.
pub const BPS_DENOMINATOR: u16 = 10000;

/// An amount parted into the platform's fee and what the target is paid.
#[derive(Clone, Copy, Debug, PartialEq, Eq, Structural)]
pub struct FeeSplit {
    pub fee_amount: u64,
    pub send_amount: u64,
}

/// The fee on an amount: the amount times the rate, over 10000, rounded down.
pub open spec fn fee_on(amount_in: u64, fee_bps: u16) -> int {
    (amount_in * fee_bps) / 10000
}

/// How an amount is parted at a fee rate, or why it cannot be.
pub open spec fn split_of(amount_in: u64, fee_bps: u16) -> Result<FeeSplit, CustomError> {
    if amount_in * fee_bps > u64::MAX {
        Err(CustomError::Overflow)
    } else if fee_on(amount_in, fee_bps) > amount_in {
        Err(CustomError::Overflow)
    } else if fee_on(amount_in, fee_bps) == amount_in {
        Err(CustomError::InsufficientFunds)
    } else {
        Ok(
            FeeSplit {
                fee_amount: fee_on(amount_in, fee_bps) as u64,
                send_amount: (amount_in - fee_on(amount_in, fee_bps)) as u64,
            },
        )
    }
}

/// Parts an amount into fee and payout. Fails with `Overflow` where the
/// amount times the rate does not fit in 64 bits or the fee exceeds the
/// amount, and with `InsufficientFunds` where nothing is left to pay out.
pub fn split_fee(amount_in: u64, fee_bps: u16) -> (r: Result<FeeSplit, CustomError>)
    ensures
        r == split_of(amount_in, fee_bps),
{
    let product = match amount_in.checked_mul(fee_bps as u64) {
        Some(p) => p,
        None => {
            return Err(CustomError::Overflow);
        },
    };
    let fee_amount: u64 = product / 10000;
    let send_amount = match amount_in.checked_sub(fee_amount) {
        Some(s) => s,
        None => {
            return Err(CustomError::Overflow);
        },
    };
    if send_amount == 0 {
        return Err(CustomError::InsufficientFunds);
    }
    Ok(FeeSplit { fee_amount, send_amount })
}

/// At a rate below 10000 basis points, the fee on an amount of at least one
/// is less than the amount.
pub proof fn lemma_fee_below_amount(amount_in: u64, fee_bps: u16)
    requires
        amount_in >= 1,
        fee_bps < 10000,
    ensures
        0 <= fee_on(amount_in, fee_bps) < amount_in,
{
    let a = amount_in as int;
    let f = fee_bps as int;
    assert(0 <= a * f < a * 10000) by (nonlinear_arith)
        requires
            a >= 1,
            0 <= f < 10000,
    ;
    assert((a * f) / 10000 < a) by (nonlinear_arith)
        requires
            0 <= a * f < a * 10000,
    ;
    assert(0 <= (a * f) / 10000) by (nonlinear_arith)
        requires
            0 <= a * f,
    ;
}

/// For an amount of at least one and a rate below 10000 basis points whose
/// product fits in 64 bits, the amount is parted without loss: fee and payout
/// add up to the amount, the fee is the product over 10000 rounded down, and
/// the payout is at least one.
pub proof fn lemma_split_exact(amount_in: u64, fee_bps: u16)
    requires
        amount_in >= 1,
        fee_bps < 10000,
        amount_in * fee_bps <= u64::MAX,
    ensures
        split_of(amount_in, fee_bps) is Ok,
        split_of(amount_in, fee_bps).unwrap().fee_amount == (amount_in * fee_bps) / 10000,
        split_of(amount_in, fee_bps).unwrap().fee_amount + split_of(
            amount_in,
            fee_bps,
        ).unwrap().send_amount == amount_in,
        split_of(amount_in, fee_bps).unwrap().send_amount >= 1,
{
    lemma_fee_below_amount(amount_in, fee_bps);
}

/// Whatever the inputs, a split that succeeds loses nothing and pays out at
/// least one.
pub proof fn lemma_split_conserves(amount_in: u64, fee_bps: u16)
    requires
        split_of(amount_in, fee_bps) is Ok,
    ensures
        split_of(amount_in, fee_bps).unwrap().fee_amount + split_of(
            amount_in,
            fee_bps,
        ).unwrap().send_amount == amount_in,
        split_of(amount_in, fee_bps).unwrap().send_amount >= 1,
        split_of(amount_in, fee_bps).unwrap().fee_amount == fee_on(amount_in, fee_bps),
{
    let a = amount_in as int;
    let f = fee_bps as int;
    assert(0 <= (a * f) / 10000) by (nonlinear_arith)
        requires
            0 <= a,
            0 <= f,
    ;
}

} // verus!
