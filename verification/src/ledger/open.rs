//! Opening an order: the request is checked, the amount goes from the opener
//! into custody, and the order is kept under its address.

use vstd::prelude::*;
use crate::accounts::{OpenOrderSol, OpenOrderSpl};
use crate::address::{
    derive_order_address,
    is_zero,
    native_asset,
    native_token,
    order_address,
    zero_bytes,
    Address,
};
use crate::error::CustomError;
use crate::events::OrderOpened;
use crate::laws::lemma_open_locks_amount;
use crate::ledger::{Ledger, LedgerView};
use crate::records::{add_order, order_from, OpenOrderParams};

verus! {

/// The chain on which orders are opened.
pub const LOCAL_CHAIN_ID: u64 = 10002;

/// What is asked of every request, whatever the asset: it names this chain
/// as the source, locks a positive amount, and names a destination chain,
/// asset and recipient that are not zero.
pub open spec fn common_ok(p: OpenOrderParams) -> bool {
    &&& p.from_chain_id == 10002
    &&& p.amount_in != 0
    &&& p.to_chain_id != 0
    &&& p.to_token@ != zero_bytes()
    &&& p.recipient@ != zero_bytes()
}

/// Whether the asset is the native one.
pub open spec fn is_native(asset: Address, native: Option<Address>) -> bool {
    native matches Some(n) && n@ == asset@
}

/// What is asked of the asset on the native path: it is the native one.
pub open spec fn sol_asset_ok(p: OpenOrderParams, native: Option<Address>) -> bool {
    is_native(p.from_token, native)
}

/// What is asked of the asset on the token path: it is neither zero nor the
/// native one, and both the token presented and the token of the opener's
/// balance are it.
pub open spec fn spl_asset_ok(p: OpenOrderParams, ctx: OpenOrderSpl, native: Option<Address>) -> bool {
    &&& p.from_token@ != zero_bytes()
    &&& !is_native(p.from_token, native)
    &&& ctx.token_mint@ == p.from_token@
    &&& ctx.user_token_mint@ == p.from_token@
}

/// Whether a request is accepted at the time `now`, given whether its asset
/// suits the path: it meets what is asked of every request, and its expiry
/// is after `now`.
pub open spec fn request_ok(p: OpenOrderParams, now: i64, asset_ok: bool) -> bool {
    asset_ok && common_ok(p) && p.expiry > now
}

/// What opening makes of the state, and what it returns, given whether the
/// asset suits the path and what address the order gets.
pub open spec fn open_model(
    pre: LedgerView,
    user: Address,
    p: OpenOrderParams,
    now: i64,
    asset_ok: bool,
    derived: Option<(Address, u8)>,
) -> (LedgerView, Result<OrderOpened, CustomError>) {
    if !request_ok(p, now, asset_ok) {
        (pre, Err(CustomError::InvalidParameter))
    } else {
        match derived {
            None => (pre, Err(CustomError::InvalidParameter)),
            Some((address, bump)) => {
                let key = (user@, p.from_token@);
                if pre.orders.dom().contains(address@) {
                    (pre, Err(CustomError::AccountAlreadyExists))
                } else if pre.wallets[key] < p.amount_in {
                    (pre, Err(CustomError::InsufficientFunds))
                } else {
                    (
                        LedgerView {
                            orders: pre.orders.insert(address@, order_from(p, user, bump)),
                            wallets: pre.wallets.insert(key, (pre.wallets[key] - p.amount_in) as u64),
                            custody: pre.custody.insert((address@, p.from_token@), p.amount_in),
                            ..pre
                        },
                        Ok(OrderOpened { order_pubkey: address }),
                    )
                }
            },
        }
    }
}

/// What opening on the native path makes of the state, and what it returns.
pub open spec fn open_sol_model(
    pre: LedgerView,
    ctx: OpenOrderSol,
    p: OpenOrderParams,
    now: i64,
    native: Option<Address>,
    derived: Option<(Address, u8)>,
) -> (LedgerView, Result<OrderOpened, CustomError>) {
    open_model(pre, ctx.user, p, now, sol_asset_ok(p, native), derived)
}

/// What opening on the token path makes of the state, and what it returns.
pub open spec fn open_spl_model(
    pre: LedgerView,
    ctx: OpenOrderSpl,
    p: OpenOrderParams,
    now: i64,
    native: Option<Address>,
    derived: Option<(Address, u8)>,
) -> (LedgerView, Result<OrderOpened, CustomError>) {
    open_model(pre, ctx.user, p, now, spl_asset_ok(p, ctx, native), derived)
}

/// Whether a request meets what is asked of every request.
pub fn check_common(params: &OpenOrderParams) -> (r: bool)
    ensures
        r == common_ok(*params),
{
    params.from_chain_id == LOCAL_CHAIN_ID && params.amount_in != 0 && params.to_chain_id != 0
        && !is_zero(&params.to_token) && !is_zero(&params.recipient)
}

/// Whether the asset is the native one.
pub fn check_native(asset: &Address, native: &Option<Address>) -> (r: bool)
    ensures
        r == is_native(*asset, *native),
{
    match native {
        Some(n) => n.same(asset),
        None => false,
    }
}

/// Whether a request to open an order on the native asset is accepted at
/// the time `now`, given the native asset's address.
pub fn check_open_sol(params: &OpenOrderParams, now: i64, native: &Option<Address>) -> (r: bool)
    ensures
        r == request_ok(*params, now, sol_asset_ok(*params, *native)),
{
    check_native(&params.from_token, native) && check_common(params) && params.expiry > now
}

/// Whether a request to open an order on a token is accepted at the time
/// `now`, given the native asset's address.
pub fn check_open_spl(
    params: &OpenOrderParams,
    ctx: &OpenOrderSpl,
    now: i64,
    native: &Option<Address>,
) -> (r: bool)
    ensures
        r == request_ok(*params, now, spl_asset_ok(*params, *ctx, *native)),
{
    !is_zero(&params.from_token.bytes) && !check_native(&params.from_token, native)
        && ctx.token_mint.same(&params.from_token) && ctx.user_token_mint.same(&params.from_token)
        && check_common(params) && params.expiry > now
}

/// Opens an order for a request that was judged already.
fn open_order(
    ledger: &mut Ledger,
    user: &Address,
    params: &OpenOrderParams,
    now: i64,
    accepted: bool,
    derived: Option<(Address, u8)>,
    Ghost(asset_ok): Ghost<bool>,
) -> (r: Result<OrderOpened, CustomError>)
    requires
        old(ledger).wf(),
        accepted == request_ok(*params, now, asset_ok),
    ensures
        final(ledger).wf(),
        (final(ledger)@, r) == open_model(old(ledger)@, *user, *params, now, asset_ok, derived),
        params.expiry <= now || params.amount_in == 0 ==> r == Err::<OrderOpened, CustomError>(
            CustomError::InvalidParameter,
        ),
        r is Err ==> final(ledger)@ == old(ledger)@,
        r matches Ok(opened) ==> (final(ledger)@.custody[(opened.order_pubkey@, params.from_token@)]
            == params.amount_in && final(ledger)@.wallets[(user@, params.from_token@)] == old(
            ledger,
        )@.wallets[(user@, params.from_token@)] - params.amount_in
            && final(ledger)@.orders.dom().contains(opened.order_pubkey@)),
{
    if !accepted {
        return Err(CustomError::InvalidParameter);
    }
    let (address, bump) = match derived {
        Some(d) => d,
        None => {
            return Err(CustomError::InvalidParameter);
        },
    };
    if ledger.orders.get(&address).is_some() {
        return Err(CustomError::AccountAlreadyExists);
    }
    let had = ledger.wallets.get(user, &params.from_token);
    if had < params.amount_in {
        return Err(CustomError::InsufficientFunds);
    }
    let order = add_order(params, user, bump);
    ledger.wallets.set(user, &params.from_token, had - params.amount_in);
    ledger.custody.set(&address, &params.from_token, params.amount_in);
    let kept = ledger.orders.insert(&address, order);
    proof {
        assert(kept);
        assert(ledger@ == open_model(old(ledger)@, *user, *params, now, asset_ok, derived).0);
        lemma_open_locks_amount(old(ledger)@, *user, *params, now, asset_ok, derived);
    }
    Ok(OrderOpened { order_pubkey: address })
}

/// Opens an order on the native asset, given the native asset's address and
/// the address that the order gets.
///
/// Fails with `InvalidParameter` where the asset is not the native one, the
/// source chain is not this one, the amount is zero, the destination chain,
/// asset or recipient is zero, the expiry is not after `now`, or no address
/// was derived; with `AccountAlreadyExists` where an order is open under the
/// address; with `InsufficientFunds` where the opener has less than the
/// amount. Otherwise the amount leaves the opener's balance, custody of the
/// address holds it, and the order is kept under the address.
pub fn open_order_sol_with(
    ledger: &mut Ledger,
    ctx: &OpenOrderSol,
    params: &OpenOrderParams,
    now: i64,
    native: Option<Address>,
    derived: Option<(Address, u8)>,
) -> (r: Result<OrderOpened, CustomError>)
    requires
        old(ledger).wf(),
    ensures
        final(ledger).wf(),
        (final(ledger)@, r) == open_sol_model(old(ledger)@, *ctx, *params, now, native, derived),
        params.expiry <= now || params.amount_in == 0 ==> r == Err::<OrderOpened, CustomError>(
            CustomError::InvalidParameter,
        ),
        r is Err ==> final(ledger)@ == old(ledger)@,
        r matches Ok(opened) ==> (final(ledger)@.custody[(opened.order_pubkey@, params.from_token@)]
            == params.amount_in && final(ledger)@.wallets[(ctx.user@, params.from_token@)] == old(
            ledger,
        )@.wallets[(ctx.user@, params.from_token@)] - params.amount_in
            && final(ledger)@.orders.dom().contains(opened.order_pubkey@)),
{
    let accepted = check_open_sol(params, now, &native);
    open_order(ledger, &ctx.user, params, now, accepted, derived, Ghost(sol_asset_ok(*params, native)))
}

/// Opens an order on a token, given the native asset's address and the
/// address that the order gets.
///
/// Fails as on the native path, but for the asset: here `InvalidParameter`
/// comes where the asset is zero or the native one, or where the token
/// presented or the token of the opener's balance is another.
pub fn open_order_spl_with(
    ledger: &mut Ledger,
    ctx: &OpenOrderSpl,
    params: &OpenOrderParams,
    now: i64,
    native: Option<Address>,
    derived: Option<(Address, u8)>,
) -> (r: Result<OrderOpened, CustomError>)
    requires
        old(ledger).wf(),
    ensures
        final(ledger).wf(),
        (final(ledger)@, r) == open_spl_model(old(ledger)@, *ctx, *params, now, native, derived),
        params.expiry <= now || params.amount_in == 0 ==> r == Err::<OrderOpened, CustomError>(
            CustomError::InvalidParameter,
        ),
        r is Err ==> final(ledger)@ == old(ledger)@,
        r matches Ok(opened) ==> (final(ledger)@.custody[(opened.order_pubkey@, params.from_token@)]
            == params.amount_in && final(ledger)@.wallets[(ctx.user@, params.from_token@)] == old(
            ledger,
        )@.wallets[(ctx.user@, params.from_token@)] - params.amount_in
            && final(ledger)@.orders.dom().contains(opened.order_pubkey@)),
{
    let accepted = check_open_spl(params, ctx, now, &native);
    open_order(
        ledger,
        &ctx.user,
        params,
        now,
        accepted,
        derived,
        Ghost(spl_asset_ok(*params, *ctx, native)),
    )
}

/// Opens an order on the native asset at the time `now`. The order's address
/// is derived from the opener and the expiry, so that one opener has at most
/// one open order with a given expiry.
pub fn open_order_sol(ledger: &mut Ledger, ctx: &OpenOrderSol, params: &OpenOrderParams, now: i64) -> (r:
    Result<OrderOpened, CustomError>)
    requires
        old(ledger).wf(),
    ensures
        final(ledger).wf(),
        (final(ledger)@, r) == open_sol_model(
            old(ledger)@,
            *ctx,
            *params,
            now,
            native_asset(),
            order_address(old(ledger)@.program_id, ctx.user@, params.expiry),
        ),
        params.expiry <= now || params.amount_in == 0 ==> r == Err::<OrderOpened, CustomError>(
            CustomError::InvalidParameter,
        ),
        r is Err ==> final(ledger)@ == old(ledger)@,
        r matches Ok(opened) ==> (final(ledger)@.custody[(opened.order_pubkey@, params.from_token@)]
            == params.amount_in && final(ledger)@.wallets[(ctx.user@, params.from_token@)] == old(
            ledger,
        )@.wallets[(ctx.user@, params.from_token@)] - params.amount_in
            && final(ledger)@.orders.dom().contains(opened.order_pubkey@)),
{
    let native = native_token();
    let derived = derive_order_address(&ledger.program_id, &ctx.user, params.expiry);
    open_order_sol_with(ledger, ctx, params, now, native, derived)
}

/// Opens an order on a token at the time `now`. The order's address is
/// derived from the opener and the expiry, so that one opener has at most
/// one open order with a given expiry.
pub fn open_order_spl(ledger: &mut Ledger, ctx: &OpenOrderSpl, params: &OpenOrderParams, now: i64) -> (r:
    Result<OrderOpened, CustomError>)
    requires
        old(ledger).wf(),
    ensures
        final(ledger).wf(),
        (final(ledger)@, r) == open_spl_model(
            old(ledger)@,
            *ctx,
            *params,
            now,
            native_asset(),
            order_address(old(ledger)@.program_id, ctx.user@, params.expiry),
        ),
        params.expiry <= now || params.amount_in == 0 ==> r == Err::<OrderOpened, CustomError>(
            CustomError::InvalidParameter,
        ),
        r is Err ==> final(ledger)@ == old(ledger)@,
        r matches Ok(opened) ==> (final(ledger)@.custody[(opened.order_pubkey@, params.from_token@)]
            == params.amount_in && final(ledger)@.wallets[(ctx.user@, params.from_token@)] == old(
            ledger,
        )@.wallets[(ctx.user@, params.from_token@)] - params.amount_in
            && final(ledger)@.orders.dom().contains(opened.order_pubkey@)),
{
    let native = native_token();
    let derived = derive_order_address(&ledger.program_id, &ctx.user, params.expiry);
    open_order_spl_with(ledger, ctx, params, now, native, derived)
}

} // verus!
