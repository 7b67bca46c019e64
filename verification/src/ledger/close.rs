//! Ending an order: cancelled, the locked amount goes back to the sender;
//! executed, it goes to the target less the platform's fee. Either way the
//! order and its custody are gone.

use vstd::prelude::*;
use crate::accounts::{CancelOrderSol, CancelOrderSpl, ExecuteOrderSol, ExecuteOrderSpl};
use crate::address::Address;
use crate::error::CustomError;
use crate::events::{OrderCancelled, OrderExecuted};
use crate::fee::{split_fee, split_of, FeeSplit};
use crate::ledger::{Ledger, LedgerView};
use crate::records::{GlobalConfig, LimitOrder};

verus! {

/// Whether an order may be cancelled by a caller in favour of a refund
/// receiver, and if not, why.
pub open spec fn cancel_verdict(
    o: LimitOrder,
    c: GlobalConfig,
    user: Address,
    refund_receiver: Address,
) -> Result<(), CustomError> {
    if user@ != o.sender@ && user@ != c.owner@ {
        Err(CustomError::Unauthorized)
    } else if refund_receiver@ != o.sender@ {
        Err(CustomError::InvalidRefundReceiver)
    } else {
        Ok(())
    }
}

/// How an order is paid out when a caller executes it at the time `now`, or
/// why it cannot be executed.
pub open spec fn execute_verdict(
    o: LimitOrder,
    c: GlobalConfig,
    executor: Address,
    refund_receiver: Address,
    now: i64,
) -> Result<FeeSplit, CustomError> {
    if executor@ != c.owner@ {
        Err(CustomError::Unauthorized)
    } else if o.expiry <= now {
        Err(CustomError::ExpiryEarlier)
    } else if refund_receiver@ != o.sender@ {
        Err(CustomError::InvalidRefundReceiver)
    } else {
        split_of(o.amount_in, c.platform_fee)
    }
}

/// Decides whether an order may be cancelled: the caller must be the
/// order's sender or the owner, else `Unauthorized`; the refund receiver
/// must be the sender, else `InvalidRefundReceiver`.
pub fn check_cancel(
    order: &LimitOrder,
    config: &GlobalConfig,
    user: &Address,
    refund_receiver: &Address,
) -> (r: Result<(), CustomError>)
    ensures
        r == cancel_verdict(*order, *config, *user, *refund_receiver),
{
    if !user.same(&order.sender) && !user.same(&config.owner) {
        return Err(CustomError::Unauthorized);
    }
    if !refund_receiver.same(&order.sender) {
        return Err(CustomError::InvalidRefundReceiver);
    }
    Ok(())
}

/// Decides whether an order may be executed at the time `now`, and how it
/// is paid out: the caller must be the owner, else `Unauthorized`; the
/// expiry must be after `now`, else `ExpiryEarlier`; the refund receiver
/// must be the order's sender, else `InvalidRefundReceiver`; then the locked
/// amount is parted at the configured rate.
pub fn check_execute(
    order: &LimitOrder,
    config: &GlobalConfig,
    executor: &Address,
    refund_receiver: &Address,
    now: i64,
) -> (r: Result<FeeSplit, CustomError>)
    ensures
        r == execute_verdict(*order, *config, *executor, *refund_receiver, now),
{
    if !executor.same(&config.owner) {
        return Err(CustomError::Unauthorized);
    }
    if order.expiry <= now {
        return Err(CustomError::ExpiryEarlier);
    }
    if !refund_receiver.same(&order.sender) {
        return Err(CustomError::InvalidRefundReceiver);
    }
    split_fee(order.amount_in, config.platform_fee)
}

/// What cancelling makes of the state, and what it returns.
pub open spec fn cancel_model(
    pre: LedgerView,
    order: Address,
    user: Address,
    refund_receiver: Address,
) -> (LedgerView, Result<OrderCancelled, CustomError>) {
    if !pre.orders.dom().contains(order@) {
        (pre, Err(CustomError::AccountNotFound))
    } else {
        let o = pre.orders[order@];
        let key = (refund_receiver@, o.from_token@);
        match pre.config {
            None => (pre, Err(CustomError::AccountNotFound)),
            Some(c) => match cancel_verdict(o, c, user, refund_receiver) {
                Err(e) => (pre, Err(e)),
                Ok(_) => if pre.wallets[key] + o.amount_in > u64::MAX {
                    (pre, Err(CustomError::Overflow))
                } else {
                    (
                        LedgerView {
                            orders: pre.orders.remove(order@),
                            wallets: pre.wallets.insert(key, (pre.wallets[key] + o.amount_in) as u64),
                            custody: pre.custody.insert((order@, o.from_token@), 0),
                            ..pre
                        },
                        Ok(OrderCancelled { order_pubkey: order, by: user }),
                    )
                },
            },
        }
    }
}

/// Cancels the order under the address and returns the whole locked amount
/// to the sender; no fee is taken, and the expiry plays no part.
///
/// Fails with `AccountNotFound` where no order is open under the address or
/// there is no configuration; with `Unauthorized` where the caller is
/// neither the order's sender nor the owner; with `InvalidRefundReceiver`
/// where the refund receiver is not the sender; with `Overflow` where the
/// sender's balance would not fit in 64 bits.
pub fn cancel_order(ledger: &mut Ledger, order: &Address, user: &Address, refund_receiver: &Address) -> (r:
    Result<OrderCancelled, CustomError>)
    requires
        old(ledger).wf(),
    ensures
        final(ledger).wf(),
        (final(ledger)@, r) == cancel_model(old(ledger)@, *order, *user, *refund_receiver),
        r is Err ==> final(ledger)@ == old(ledger)@,
        r is Ok ==> !final(ledger)@.orders.dom().contains(order@),
        old(ledger)@.orders.dom().contains(order@) && old(ledger)@.config is Some && user@
            != old(ledger)@.orders[order@].sender@ && user@ != old(ledger)@.config.unwrap().owner@
            ==> r == Err::<OrderCancelled, CustomError>(CustomError::Unauthorized),
{
    let o = match ledger.orders.get(order) {
        Some(o) => o,
        None => {
            return Err(CustomError::AccountNotFound);
        },
    };
    let config = match ledger.config {
        Some(c) => c,
        None => {
            return Err(CustomError::AccountNotFound);
        },
    };
    match check_cancel(&o, &config, user, refund_receiver) {
        Ok(_) => {},
        Err(e) => {
            return Err(e);
        },
    }
    let had = ledger.wallets.get(refund_receiver, &o.from_token);
    let refunded = match had.checked_add(o.amount_in) {
        Some(sum) => sum,
        None => {
            return Err(CustomError::Overflow);
        },
    };
    ledger.custody.set(order, &o.from_token, 0);
    ledger.wallets.set(refund_receiver, &o.from_token, refunded);
    let gone = ledger.orders.remove(order);
    proof {
        crate::laws::lemma_closing_keeps_consistent(old(ledger)@, ledger@, *order);
    }
    Ok(OrderCancelled { order_pubkey: *order, by: *user })
}

/// Cancels an order on the native asset.
pub fn cancel_order_sol(ledger: &mut Ledger, ctx: &CancelOrderSol) -> (r: Result<
    OrderCancelled,
    CustomError,
>)
    requires
        old(ledger).wf(),
    ensures
        final(ledger).wf(),
        (final(ledger)@, r) == cancel_model(old(ledger)@, ctx.order, ctx.user, ctx.refund_receiver),
        r is Err ==> final(ledger)@ == old(ledger)@,
        r is Ok ==> !final(ledger)@.orders.dom().contains(ctx.order@),
        old(ledger)@.orders.dom().contains(ctx.order@) && old(ledger)@.config is Some && ctx.user@
            != old(ledger)@.orders[ctx.order@].sender@ && ctx.user@ != old(ledger)@.config.unwrap().owner@
            ==> r == Err::<OrderCancelled, CustomError>(CustomError::Unauthorized),
{
    cancel_order(ledger, &ctx.order, &ctx.user, &ctx.refund_receiver)
}

/// Cancels an order on a token.
pub fn cancel_order_spl(ledger: &mut Ledger, ctx: &CancelOrderSpl) -> (r: Result<
    OrderCancelled,
    CustomError,
>)
    requires
        old(ledger).wf(),
    ensures
        final(ledger).wf(),
        (final(ledger)@, r) == cancel_model(old(ledger)@, ctx.order, ctx.user, ctx.refund_receiver),
        r is Err ==> final(ledger)@ == old(ledger)@,
        r is Ok ==> !final(ledger)@.orders.dom().contains(ctx.order@),
        old(ledger)@.orders.dom().contains(ctx.order@) && old(ledger)@.config is Some && ctx.user@
            != old(ledger)@.orders[ctx.order@].sender@ && ctx.user@ != old(ledger)@.config.unwrap().owner@
            ==> r == Err::<OrderCancelled, CustomError>(CustomError::Unauthorized),
{
    cancel_order(ledger, &ctx.order, &ctx.user, &ctx.refund_receiver)
}

/// The balances of the holders once the target is paid and then the
/// treasury, or `None` where one of the two balances would not fit in 64
/// bits.
pub open spec fn paid_out(
    wallets: Map<(Seq<u8>, Seq<u8>), u64>,
    asset: Seq<u8>,
    target: Seq<u8>,
    send_amount: u64,
    treasury: Seq<u8>,
    fee_amount: u64,
) -> Option<Map<(Seq<u8>, Seq<u8>), u64>> {
    if wallets[(target, asset)] + send_amount > u64::MAX {
        None
    } else {
        let first = wallets.insert((target, asset), (wallets[(target, asset)] + send_amount) as u64);
        if first[(treasury, asset)] + fee_amount > u64::MAX {
            None
        } else {
            Some(first.insert((treasury, asset), (first[(treasury, asset)] + fee_amount) as u64))
        }
    }
}

/// What executing makes of the state, and what it returns.
pub open spec fn execute_model(
    pre: LedgerView,
    order: Address,
    target: Address,
    executor: Address,
    refund_receiver: Address,
    native_token_volume: u64,
    now: i64,
) -> (LedgerView, Result<OrderExecuted, CustomError>) {
    if !pre.orders.dom().contains(order@) {
        (pre, Err(CustomError::AccountNotFound))
    } else {
        let o = pre.orders[order@];
        match pre.config {
            None => (pre, Err(CustomError::AccountNotFound)),
            Some(c) => match execute_verdict(o, c, executor, refund_receiver, now) {
                Err(e) => (pre, Err(e)),
                Ok(split) => match paid_out(
                    pre.wallets,
                    o.from_token@,
                    target@,
                    split.send_amount,
                    c.treasury@,
                    split.fee_amount,
                ) {
                    None => (pre, Err(CustomError::Overflow)),
                    Some(wallets) => (
                        LedgerView {
                            orders: pre.orders.remove(order@),
                            wallets,
                            custody: pre.custody.insert((order@, o.from_token@), 0),
                            ..pre
                        },
                        Ok(OrderExecuted { order_pubkey: order, by: executor, native_token_volume }),
                    ),
                },
            },
        }
    }
}

/// Executes the order under the address at the time `now`: the target is
/// paid the locked amount less the fee, the treasury the fee, both in the
/// order's asset. The volume is passed on to the observers as it came.
///
/// Fails with `AccountNotFound` where no order is open under the address or
/// there is no configuration; with `Unauthorized` where the caller is not
/// the owner; with `ExpiryEarlier` where the expiry is not after `now`; with
/// `InvalidRefundReceiver` where the refund receiver is not the order's
/// sender; with `Overflow` where the amount times the fee rate, or a balance
/// that is paid into, would not fit in 64 bits; with `InsufficientFunds`
/// where nothing would be left for the target.
pub fn execute_order(
    ledger: &mut Ledger,
    order: &Address,
    target: &Address,
    executor: &Address,
    refund_receiver: &Address,
    native_token_volume: u64,
    now: i64,
) -> (r: Result<OrderExecuted, CustomError>)
    requires
        old(ledger).wf(),
    ensures
        final(ledger).wf(),
        (final(ledger)@, r) == execute_model(
            old(ledger)@,
            *order,
            *target,
            *executor,
            *refund_receiver,
            native_token_volume,
            now,
        ),
        r is Err ==> final(ledger)@ == old(ledger)@,
        r is Ok ==> !final(ledger)@.orders.dom().contains(order@),
        old(ledger)@.orders.dom().contains(order@) && old(ledger)@.config is Some && executor@
            != old(ledger)@.config.unwrap().owner@ ==> r == Err::<OrderExecuted, CustomError>(
            CustomError::Unauthorized,
        ),
{
    let o = match ledger.orders.get(order) {
        Some(o) => o,
        None => {
            return Err(CustomError::AccountNotFound);
        },
    };
    let config = match ledger.config {
        Some(c) => c,
        None => {
            return Err(CustomError::AccountNotFound);
        },
    };
    let split = match check_execute(&o, &config, executor, refund_receiver, now) {
        Ok(s) => s,
        Err(e) => {
            return Err(e);
        },
    };
    let target_had = ledger.wallets.get(target, &o.from_token);
    let target_has = match target_had.checked_add(split.send_amount) {
        Some(sum) => sum,
        None => {
            return Err(CustomError::Overflow);
        },
    };
    let treasury_had = if config.treasury.same(target) {
        target_has
    } else {
        ledger.wallets.get(&config.treasury, &o.from_token)
    };
    let treasury_has = match treasury_had.checked_add(split.fee_amount) {
        Some(sum) => sum,
        None => {
            return Err(CustomError::Overflow);
        },
    };
    ledger.custody.set(order, &o.from_token, 0);
    ledger.wallets.set(target, &o.from_token, target_has);
    ledger.wallets.set(&config.treasury, &o.from_token, treasury_has);
    let gone = ledger.orders.remove(order);
    proof {
        crate::laws::lemma_closing_keeps_consistent(old(ledger)@, ledger@, *order);
    }
    Ok(OrderExecuted { order_pubkey: *order, by: *executor, native_token_volume })
}

/// Executes an order on the native asset at the time `now`.
pub fn execute_order_sol(ledger: &mut Ledger, ctx: &ExecuteOrderSol, native_token_volume: u64, now: i64) -> (r:
    Result<OrderExecuted, CustomError>)
    requires
        old(ledger).wf(),
    ensures
        final(ledger).wf(),
        (final(ledger)@, r) == execute_model(
            old(ledger)@,
            ctx.order,
            ctx.target_sol,
            ctx.executor,
            ctx.refund_receiver,
            native_token_volume,
            now,
        ),
        r is Err ==> final(ledger)@ == old(ledger)@,
        r is Ok ==> !final(ledger)@.orders.dom().contains(ctx.order@),
        old(ledger)@.orders.dom().contains(ctx.order@) && old(ledger)@.config is Some && ctx.executor@
            != old(ledger)@.config.unwrap().owner@ ==> r == Err::<OrderExecuted, CustomError>(
            CustomError::Unauthorized,
        ),
{
    execute_order(
        ledger,
        &ctx.order,
        &ctx.target_sol,
        &ctx.executor,
        &ctx.refund_receiver,
        native_token_volume,
        now,
    )
}

/// Executes an order on a token at the time `now`.
pub fn execute_order_spl(ledger: &mut Ledger, ctx: &ExecuteOrderSpl, native_token_volume: u64, now: i64) -> (r:
    Result<OrderExecuted, CustomError>)
    requires
        old(ledger).wf(),
    ensures
        final(ledger).wf(),
        (final(ledger)@, r) == execute_model(
            old(ledger)@,
            ctx.order,
            ctx.target,
            ctx.executor,
            ctx.refund_receiver,
            native_token_volume,
            now,
        ),
        r is Err ==> final(ledger)@ == old(ledger)@,
        r is Ok ==> !final(ledger)@.orders.dom().contains(ctx.order@),
        old(ledger)@.orders.dom().contains(ctx.order@) && old(ledger)@.config is Some && ctx.executor@
            != old(ledger)@.config.unwrap().owner@ ==> r == Err::<OrderExecuted, CustomError>(
            CustomError::Unauthorized,
        ),
{
    execute_order(
        ledger,
        &ctx.order,
        &ctx.target,
        &ctx.executor,
        &ctx.refund_receiver,
        native_token_volume,
        now,
    )
}

} // verus!
