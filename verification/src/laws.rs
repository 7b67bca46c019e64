//! What holds of the operations, whatever the state and the inputs.

use vstd::prelude::*;
use crate::address::Address;
use crate::error::CustomError;
use crate::fee::{lemma_fee_below_amount, lemma_split_conserves};
use crate::ledger::close::{cancel_model, execute_model};
use crate::ledger::open::open_model;
use crate::ledger::{consistent, escrowed, LedgerView};
use crate::records::OpenOrderParams;

verus! {

/// An operation was refused for the given reason and changed nothing.
pub open spec fn refused<T>(
    outcome: (LedgerView, Result<T, CustomError>),
    pre: LedgerView,
    reason: CustomError,
) -> bool {
    outcome.0 == pre && outcome.1 == Err::<T, CustomError>(reason)
}

/// An order that is opened, on either path, locks exactly its amount: the
/// custody of its address then holds the amount in the order's asset, the
/// opener has that much less of the asset, no other balance has changed,
/// and the order is kept under the address.
pub proof fn lemma_open_locks_amount(
    pre: LedgerView,
    user: Address,
    p: OpenOrderParams,
    now: i64,
    asset_ok: bool,
    derived: Option<(Address, u8)>,
)
    requires
        consistent(pre),
        open_model(pre, user, p, now, asset_ok, derived).1 is Ok,
    ensures
        ({
            let post = open_model(pre, user, p, now, asset_ok, derived).0;
            let address = derived.unwrap().0;
            &&& derived is Some
            &&& post.custody[(address@, p.from_token@)] == p.amount_in
            &&& post.wallets[(user@, p.from_token@)] == pre.wallets[(user@, p.from_token@)]
                - p.amount_in
            &&& forall|k: (Seq<u8>, Seq<u8>)|
                k != (user@, p.from_token@) ==> #[trigger] post.wallets[k] == pre.wallets[k]
            &&& post.orders.dom().contains(address@)
            &&& post.orders[address@].amount_in == p.amount_in
            &&& post.orders[address@].sender == user
            &&& consistent(post)
        }),
{
    let post = open_model(pre, user, p, now, asset_ok, derived).0;
    let address = derived.unwrap().0;
    assert forall|k: (Seq<u8>, Seq<u8>)| #[trigger] post.custody[k] == escrowed(post.orders, k) by {
        assert(pre.custody[k] == escrowed(pre.orders, k));
    }
    assert forall|a: Seq<u8>| #[trigger] post.orders.dom().contains(a) implies post.orders[a].wf() by {
        if a != address@ {
            assert(pre.orders.dom().contains(a));
        }
    }
    assert forall|k: (Seq<u8>, Seq<u8>)| #[trigger] post.wallets.dom().contains(k) by {
        assert(pre.wallets.dom().contains(k));
    }
    assert forall|k: (Seq<u8>, Seq<u8>)| #[trigger] post.custody.dom().contains(k) by {
        assert(pre.custody.dom().contains(k));
    }
}

/// An open request whose expiry is not after the present, or whose amount is
/// zero, is refused with `InvalidParameter`, and nothing changes.
pub proof fn lemma_open_refuses_past_expiry_and_zero_amount(
    pre: LedgerView,
    user: Address,
    p: OpenOrderParams,
    now: i64,
    asset_ok: bool,
    derived: Option<(Address, u8)>,
)
    requires
        p.expiry <= now || p.amount_in == 0,
    ensures
        refused(
            open_model(pre, user, p, now, asset_ok, derived),
            pre,
            CustomError::InvalidParameter,
        ),
{
}

/// While an order is open under an address, no other can be opened under
/// it: a second request of the same sender with the same expiry, which gets
/// the same address, fails.
pub proof fn lemma_open_twice_fails(
    pre: LedgerView,
    user: Address,
    p: OpenOrderParams,
    now: i64,
    asset_ok: bool,
    derived: Option<(Address, u8)>,
    next: OpenOrderParams,
    now2: i64,
    asset_ok2: bool,
)
    requires
        open_model(pre, user, p, now, asset_ok, derived).1 is Ok,
    ensures
        ({
            let post = open_model(pre, user, p, now, asset_ok, derived).0;
            let again = open_model(post, user, next, now2, asset_ok2, derived);
            refused(again, post, CustomError::InvalidParameter) || refused(
                again,
                post,
                CustomError::AccountAlreadyExists,
            )
        }),
{
}

/// Cancelling an open order as someone who is neither its sender nor the
/// owner fails with `Unauthorized`, and nothing changes.
pub proof fn lemma_cancel_needs_sender_or_owner(
    pre: LedgerView,
    order: Address,
    user: Address,
    refund_receiver: Address,
)
    requires
        pre.orders.dom().contains(order@),
        pre.config is Some,
        user@ != pre.orders[order@].sender@,
        user@ != pre.config.unwrap().owner@,
    ensures
        refused(cancel_model(pre, order, user, refund_receiver), pre, CustomError::Unauthorized),
{
}

/// Executing an open order as anyone but the owner fails with
/// `Unauthorized`, and nothing changes.
pub proof fn lemma_execute_needs_owner(
    pre: LedgerView,
    order: Address,
    target: Address,
    executor: Address,
    refund_receiver: Address,
    native_token_volume: u64,
    now: i64,
)
    requires
        pre.orders.dom().contains(order@),
        pre.config is Some,
        executor@ != pre.config.unwrap().owner@,
    ensures
        refused(
            execute_model(pre, order, target, executor, refund_receiver, native_token_volume, now),
            pre,
            CustomError::Unauthorized,
        ),
{
}

/// Once an order is cancelled it is gone: cancelling or executing it again,
/// by whomever and whenever, fails with `AccountNotFound` and changes
/// nothing.
pub proof fn lemma_cancelled_is_final(
    pre: LedgerView,
    order: Address,
    user: Address,
    refund_receiver: Address,
    user2: Address,
    refund_receiver2: Address,
    target2: Address,
    native_token_volume2: u64,
    now2: i64,
)
    requires
        cancel_model(pre, order, user, refund_receiver).1 is Ok,
    ensures
        ({
            let post = cancel_model(pre, order, user, refund_receiver).0;
            &&& !post.orders.dom().contains(order@)
            &&& refused(
                cancel_model(post, order, user2, refund_receiver2),
                post,
                CustomError::AccountNotFound,
            )
            &&& refused(
                execute_model(
                    post,
                    order,
                    target2,
                    user2,
                    refund_receiver2,
                    native_token_volume2,
                    now2,
                ),
                post,
                CustomError::AccountNotFound,
            )
        }),
{
}

/// Once an order is executed it is gone: cancelling or executing it again,
/// by whomever and whenever, fails with `AccountNotFound` and changes
/// nothing.
pub proof fn lemma_executed_is_final(
    pre: LedgerView,
    order: Address,
    target: Address,
    executor: Address,
    refund_receiver: Address,
    native_token_volume: u64,
    now: i64,
    user2: Address,
    refund_receiver2: Address,
    target2: Address,
    native_token_volume2: u64,
    now2: i64,
)
    requires
        execute_model(pre, order, target, executor, refund_receiver, native_token_volume, now).1 is Ok,
    ensures
        ({
            let post = execute_model(
                pre,
                order,
                target,
                executor,
                refund_receiver,
                native_token_volume,
                now,
            ).0;
            &&& !post.orders.dom().contains(order@)
            &&& refused(
                cancel_model(post, order, user2, refund_receiver2),
                post,
                CustomError::AccountNotFound,
            )
            &&& refused(
                execute_model(
                    post,
                    order,
                    target2,
                    user2,
                    refund_receiver2,
                    native_token_volume2,
                    now2,
                ),
                post,
                CustomError::AccountNotFound,
            )
        }),
{
}

/// A cancelled order gives the sender the whole locked amount back, in the
/// order's asset, and leaves its custody empty; no other balance changes.
pub proof fn lemma_cancel_refunds_sender(
    pre: LedgerView,
    order: Address,
    user: Address,
    refund_receiver: Address,
)
    requires
        consistent(pre),
        cancel_model(pre, order, user, refund_receiver).1 is Ok,
    ensures
        ({
            let post = cancel_model(pre, order, user, refund_receiver).0;
            let o = pre.orders[order@];
            let key = (o.sender@, o.from_token@);
            &&& refund_receiver@ == o.sender@
            &&& pre.custody[(order@, o.from_token@)] == o.amount_in
            &&& post.wallets[key] == pre.wallets[key] + o.amount_in
            &&& forall|k: (Seq<u8>, Seq<u8>)| k != key ==> #[trigger] post.wallets[k] == pre.wallets[k]
            &&& forall|asset: Seq<u8>| #[trigger] post.custody[(order@, asset)] == 0
            &&& consistent(post)
        }),
{
    let post = cancel_model(pre, order, user, refund_receiver).0;
    let o = pre.orders[order@];
    assert(pre.custody[(order@, o.from_token@)] == escrowed(pre.orders, (order@, o.from_token@)));
    assert forall|asset: Seq<u8>| #[trigger] post.custody[(order@, asset)] == 0 by {
        assert(pre.custody[(order@, asset)] == escrowed(pre.orders, (order@, asset)));
    }
    lemma_closing_keeps_consistent(pre, post, order);
}

/// An executed order pays the target the locked amount less the fee and the
/// treasury the fee, both in the order's asset: the two payments add up to
/// the locked amount, the fee is the amount times the rate over 10000,
/// rounded down, and the payout is at least one. Custody of the order is
/// empty afterwards, and no other balance has changed.
pub proof fn lemma_execute_pays_target_and_treasury(
    pre: LedgerView,
    order: Address,
    target: Address,
    executor: Address,
    refund_receiver: Address,
    native_token_volume: u64,
    now: i64,
)
    requires
        consistent(pre),
        execute_model(pre, order, target, executor, refund_receiver, native_token_volume, now).1 is Ok,
    ensures
        ({
            let post = execute_model(
                pre,
                order,
                target,
                executor,
                refund_receiver,
                native_token_volume,
                now,
            ).0;
            let o = pre.orders[order@];
            let c = pre.config.unwrap();
            let fee = (o.amount_in * c.platform_fee) / 10000;
            let send = o.amount_in - fee;
            let paid = (target@, o.from_token@);
            let kept = (c.treasury@, o.from_token@);
            &&& executor@ == c.owner@
            &&& o.expiry > now
            &&& 0 <= fee < o.amount_in
            &&& pre.custody[(order@, o.from_token@)] == o.amount_in
            &&& paid != kept ==> post.wallets[paid] == pre.wallets[paid] + send && post.wallets[kept]
                == pre.wallets[kept] + fee
            &&& paid == kept ==> post.wallets[paid] == pre.wallets[paid] + o.amount_in
            &&& forall|k: (Seq<u8>, Seq<u8>)|
                k != paid && k != kept ==> #[trigger] post.wallets[k] == pre.wallets[k]
            &&& forall|asset: Seq<u8>| #[trigger] post.custody[(order@, asset)] == 0
            &&& consistent(post)
        }),
{
    let post = execute_model(
        pre,
        order,
        target,
        executor,
        refund_receiver,
        native_token_volume,
        now,
    ).0;
    let o = pre.orders[order@];
    let c = pre.config.unwrap();
    lemma_split_conserves(o.amount_in, c.platform_fee);
    assert(pre.custody[(order@, o.from_token@)] == escrowed(pre.orders, (order@, o.from_token@)));
    assert forall|asset: Seq<u8>| #[trigger] post.custody[(order@, asset)] == 0 by {
        assert(pre.custody[(order@, asset)] == escrowed(pre.orders, (order@, asset)));
    }
    assert forall|k: (Seq<u8>, Seq<u8>)| #[trigger] post.wallets.dom().contains(k) by {
        assert(pre.wallets.dom().contains(k));
    }
    lemma_closing_keeps_consistent(pre, post, order);
}

/// In a consistent state an order that is open is never refused execution
/// for want of funds: its amount is at least one and the fee rate is below
/// 10000 basis points, so that the fee is less than the amount and at least
/// one is left for the target.
pub proof fn lemma_execute_leaves_a_payout(
    pre: LedgerView,
    order: Address,
    target: Address,
    executor: Address,
    refund_receiver: Address,
    native_token_volume: u64,
    now: i64,
)
    requires
        consistent(pre),
    ensures
        !refused(
            execute_model(pre, order, target, executor, refund_receiver, native_token_volume, now),
            pre,
            CustomError::InsufficientFunds,
        ),
{
    if pre.orders.dom().contains(order@) && pre.config is Some {
        lemma_fee_below_amount(pre.orders[order@].amount_in, pre.config.unwrap().platform_fee);
    }
}

/// A consistent state stays consistent when an order is taken out and its
/// custody is emptied, whatever happens to the balances of the holders.
pub proof fn lemma_closing_keeps_consistent(pre: LedgerView, post: LedgerView, order: Address)
    requires
        consistent(pre),
        pre.orders.dom().contains(order@),
        post.config == pre.config,
        post.orders == pre.orders.remove(order@),
        post.custody == pre.custody.insert((order@, pre.orders[order@].from_token@), 0),
        forall|k: (Seq<u8>, Seq<u8>)| #[trigger] post.wallets.dom().contains(k),
    ensures
        consistent(post),
{
    assert forall|k: (Seq<u8>, Seq<u8>)| #[trigger] post.custody[k] == escrowed(post.orders, k) by {
        assert(pre.custody[k] == escrowed(pre.orders, k));
    }
    assert forall|a: Seq<u8>| #[trigger] post.orders.dom().contains(a) implies post.orders[a].wf() by {
        assert(pre.orders.dom().contains(a));
    }
    assert forall|k: (Seq<u8>, Seq<u8>)| #[trigger] post.custody.dom().contains(k) by {
        assert(pre.custody.dom().contains(k));
    }
}

/// An operation on an order that fails changes nothing.
pub proof fn lemma_failure_changes_nothing(
    pre: LedgerView,
    order: Address,
    target: Address,
    user: Address,
    refund_receiver: Address,
    native_token_volume: u64,
    now: i64,
    p: OpenOrderParams,
    asset_ok: bool,
    derived: Option<(Address, u8)>,
)
    ensures
        open_model(pre, user, p, now, asset_ok, derived).1 is Err ==> open_model(
            pre,
            user,
            p,
            now,
            asset_ok,
            derived,
        ).0 == pre,
        cancel_model(pre, order, user, refund_receiver).1 is Err ==> cancel_model(
            pre,
            order,
            user,
            refund_receiver,
        ).0 == pre,
        execute_model(pre, order, target, user, refund_receiver, native_token_volume, now).1 is Err
            ==> execute_model(pre, order, target, user, refund_receiver, native_token_volume, now).0
            == pre,
{
}

} // verus!
