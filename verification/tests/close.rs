use interra_order_solana::{
    cancel_order, cancel_order_sol, cancel_order_spl, check_cancel, check_execute, execute_order,
    execute_order_sol, execute_order_spl, initialize, native_token, open_order_sol,
    open_order_spl, update_config, Address, CancelOrderSol, CancelOrderSpl, CustomError,
    ExecuteOrderSol, ExecuteOrderSpl, FeeSplit, GlobalConfig, Initialize, Ledger, LimitOrder,
    OpenOrderParams, OpenOrderSol, OpenOrderSpl, OrderCancelled, OrderExecuted, UpdateConfig,
};

const T0: i64 = 1_700_000_000;
const OWNER: u8 = 1;
const TREASURY: u8 = 2;
const SENDER: u8 = 4;
const TARGET: u8 = 5;

fn who(n: u8) -> Address {
    Address::new([n; 32])
}

fn sol() -> Address {
    native_token().unwrap()
}

fn request(asset: Address, amount_in: u64) -> OpenOrderParams {
    OpenOrderParams {
        from_token: asset,
        from_chain_id: 10002,
        amount_in,
        to_chain_id: 56,
        to_token: [7; 32],
        recipient: [9; 32],
        expiry: T0 + 100,
        amount_out: [0; 32],
    }
}

fn with_native_order(fee: u16, amount_in: u64) -> (Ledger, Address) {
    let mut ledger = Ledger::new(who(200));
    initialize(&mut ledger, &Initialize { signer: who(OWNER) }, fee, who(TREASURY)).unwrap();
    ledger.deposit(&who(SENDER), &sol(), amount_in).unwrap();
    let opened = open_order_sol(&mut ledger, &OpenOrderSol { user: who(SENDER) }, &request(sol(), amount_in), T0);
    let order = opened.unwrap().order_pubkey;
    (ledger, order)
}

fn with_token_order(fee: u16, amount_in: u64) -> (Ledger, Address, Address) {
    let token = who(50);
    let mut ledger = Ledger::new(who(200));
    initialize(&mut ledger, &Initialize { signer: who(OWNER) }, fee, who(TREASURY)).unwrap();
    ledger.deposit(&who(SENDER), &token, amount_in).unwrap();
    let ctx = OpenOrderSpl { user: who(SENDER), token_mint: token, user_token_mint: token };
    let order = open_order_spl(&mut ledger, &ctx, &request(token, amount_in), T0).unwrap().order_pubkey;
    (ledger, order, token)
}

#[test]
fn stranger_cannot_cancel() {
    let (mut ledger, order) = with_native_order(100, 50);
    let ctx = CancelOrderSol { order, user: who(9), refund_receiver: who(SENDER) };
    assert_eq!(cancel_order_sol(&mut ledger, &ctx), Err(CustomError::Unauthorized));
    let to_self = CancelOrderSol { order, user: who(9), refund_receiver: who(9) };
    assert_eq!(cancel_order_sol(&mut ledger, &to_self), Err(CustomError::Unauthorized));
    assert_eq!(ledger.custody_balance(&order, &sol()), 50);
    assert!(ledger.order(&order).is_some());
    assert_eq!(ledger.balance(&who(9), &sol()), 0);
}

#[test]
fn owner_cancels_in_favour_of_the_sender() {
    let (mut ledger, order) = with_native_order(100, 50);
    let ctx = CancelOrderSol { order, user: who(OWNER), refund_receiver: who(SENDER) };
    assert_eq!(
        cancel_order_sol(&mut ledger, &ctx),
        Ok(OrderCancelled { order_pubkey: order, by: who(OWNER) })
    );
    assert_eq!(ledger.balance(&who(SENDER), &sol()), 50);
    assert_eq!(ledger.balance(&who(OWNER), &sol()), 0);
    assert_eq!(ledger.balance(&who(TREASURY), &sol()), 0);
}

#[test]
fn refund_cannot_be_redirected() {
    let (mut ledger, order) = with_native_order(100, 50);
    let by_owner = CancelOrderSol { order, user: who(OWNER), refund_receiver: who(OWNER) };
    assert_eq!(cancel_order_sol(&mut ledger, &by_owner), Err(CustomError::InvalidRefundReceiver));
    let by_sender = CancelOrderSol { order, user: who(SENDER), refund_receiver: who(9) };
    assert_eq!(cancel_order_sol(&mut ledger, &by_sender), Err(CustomError::InvalidRefundReceiver));
    assert_eq!(ledger.custody_balance(&order, &sol()), 50);
    assert_eq!(ledger.balance(&who(9), &sol()), 0);
}

#[test]
fn sender_cancels_a_token_order_without_fee() {
    let (mut ledger, order, token) = with_token_order(9_999, 1000);
    let ctx = CancelOrderSpl { order, user: who(SENDER), refund_receiver: who(SENDER) };
    assert!(cancel_order_spl(&mut ledger, &ctx).is_ok());
    assert_eq!(ledger.balance(&who(SENDER), &token), 1000);
    assert_eq!(ledger.balance(&who(TREASURY), &token), 0);
    assert_eq!(ledger.custody_balance(&order, &token), 0);
}

#[test]
fn cancel_does_not_ask_for_the_time() {
    let (mut ledger, order) = with_native_order(100, 50);
    let late = ExecuteOrderSol { order, target_sol: who(TARGET), executor: who(OWNER), refund_receiver: who(SENDER) };
    assert_eq!(execute_order_sol(&mut ledger, &late, 0, T0 + 1000), Err(CustomError::ExpiryEarlier));
    assert!(cancel_order(&mut ledger, &order, &who(SENDER), &who(SENDER)).is_ok());
}

#[test]
fn cancel_of_unknown_order_fails() {
    let (mut ledger, _) = with_native_order(100, 50);
    let r = cancel_order(&mut ledger, &who(99), &who(SENDER), &who(SENDER));
    assert_eq!(r, Err(CustomError::AccountNotFound));
}

#[test]
fn cancelled_order_cannot_be_ended_again() {
    let (mut ledger, order) = with_native_order(100, 50);
    cancel_order(&mut ledger, &order, &who(SENDER), &who(SENDER)).unwrap();
    assert_eq!(ledger.order(&order), None);
    let again = cancel_order(&mut ledger, &order, &who(SENDER), &who(SENDER));
    assert_eq!(again, Err(CustomError::AccountNotFound));
    let by_owner = cancel_order(&mut ledger, &order, &who(OWNER), &who(SENDER));
    assert_eq!(by_owner, Err(CustomError::AccountNotFound));
    let run = execute_order(&mut ledger, &order, &who(TARGET), &who(OWNER), &who(SENDER), 0, T0);
    assert_eq!(run, Err(CustomError::AccountNotFound));
    assert_eq!(ledger.balance(&who(SENDER), &sol()), 50);
    assert_eq!(ledger.balance(&who(TARGET), &sol()), 0);
}

#[test]
fn executed_order_cannot_be_ended_again() {
    let (mut ledger, order) = with_native_order(100, 10_000);
    execute_order(&mut ledger, &order, &who(TARGET), &who(OWNER), &who(SENDER), 0, T0).unwrap();
    let again = execute_order(&mut ledger, &order, &who(TARGET), &who(OWNER), &who(SENDER), 0, T0);
    assert_eq!(again, Err(CustomError::AccountNotFound));
    let back = cancel_order(&mut ledger, &order, &who(SENDER), &who(SENDER));
    assert_eq!(back, Err(CustomError::AccountNotFound));
    assert_eq!(ledger.balance(&who(TARGET), &sol()), 9_900);
    assert_eq!(ledger.balance(&who(TREASURY), &sol()), 100);
    assert_eq!(ledger.balance(&who(SENDER), &sol()), 0);
}

#[test]
fn address_is_free_again_once_the_order_is_gone() {
    let (mut ledger, order) = with_native_order(100, 50);
    cancel_order(&mut ledger, &order, &who(SENDER), &who(SENDER)).unwrap();
    let reopened = open_order_sol(&mut ledger, &OpenOrderSol { user: who(SENDER) }, &request(sol(), 20), T0);
    assert_eq!(reopened.unwrap().order_pubkey, order);
    assert_eq!(ledger.custody_balance(&order, &sol()), 20);
    assert_eq!(ledger.balance(&who(SENDER), &sol()), 30);
}

#[test]
fn only_the_owner_executes() {
    let (mut ledger, order, token) = with_token_order(250, 1000);
    for caller in [who(SENDER), who(TARGET), who(TREASURY), who(9)] {
        let ctx = ExecuteOrderSpl { order, target: who(TARGET), executor: caller, refund_receiver: who(SENDER) };
        assert_eq!(execute_order_spl(&mut ledger, &ctx, 0, T0), Err(CustomError::Unauthorized));
    }
    let late = ExecuteOrderSpl { order, target: who(TARGET), executor: who(9), refund_receiver: who(9) };
    assert_eq!(execute_order_spl(&mut ledger, &late, 0, T0 + 1000), Err(CustomError::Unauthorized));
    assert_eq!(ledger.custody_balance(&order, &token), 1000);
    assert_eq!(ledger.balance(&who(TARGET), &token), 0);
}

#[test]
fn new_owner_executes_after_handover() {
    let (mut ledger, order) = with_native_order(100, 10_000);
    update_config(&mut ledger, &UpdateConfig { owner: who(OWNER) }, who(7), 500, who(8), false).unwrap();
    let old = execute_order(&mut ledger, &order, &who(TARGET), &who(OWNER), &who(SENDER), 0, T0);
    assert_eq!(old, Err(CustomError::Unauthorized));
    execute_order(&mut ledger, &order, &who(TARGET), &who(7), &who(SENDER), 0, T0).unwrap();
    assert_eq!(ledger.balance(&who(TARGET), &sol()), 9_500);
    assert_eq!(ledger.balance(&who(8), &sol()), 500);
    assert_eq!(ledger.balance(&who(TREASURY), &sol()), 0);
}

#[test]
fn execution_stops_at_the_expiry() {
    let (mut ledger, order) = with_native_order(100, 50);
    let ctx = ExecuteOrderSol { order, target_sol: who(TARGET), executor: who(OWNER), refund_receiver: who(SENDER) };
    assert_eq!(execute_order_sol(&mut ledger, &ctx, 0, T0 + 100), Err(CustomError::ExpiryEarlier));
    assert_eq!(execute_order_sol(&mut ledger, &ctx, 0, T0 + 101), Err(CustomError::ExpiryEarlier));
    assert_eq!(ledger.custody_balance(&order, &sol()), 50);
    assert_eq!(
        execute_order_sol(&mut ledger, &ctx, 5, T0 + 99),
        Ok(OrderExecuted { order_pubkey: order, by: who(OWNER), native_token_volume: 5 })
    );
}

#[test]
fn execution_wants_the_sender_as_refund_receiver() {
    let (mut ledger, order) = with_native_order(100, 50);
    let r = execute_order(&mut ledger, &order, &who(TARGET), &who(OWNER), &who(OWNER), 0, T0);
    assert_eq!(r, Err(CustomError::InvalidRefundReceiver));
    let expired_first = execute_order(&mut ledger, &order, &who(TARGET), &who(OWNER), &who(OWNER), 0, T0 + 100);
    assert_eq!(expired_first, Err(CustomError::ExpiryEarlier));
}

#[test]
fn execution_fails_where_the_fee_overflows() {
    let (mut ledger, order) = with_native_order(2, u64::MAX);
    let r = execute_order(&mut ledger, &order, &who(TARGET), &who(OWNER), &who(SENDER), 0, T0);
    assert_eq!(r, Err(CustomError::Overflow));
    assert_eq!(ledger.custody_balance(&order, &sol()), u64::MAX);
    assert!(ledger.order(&order).is_some());
    assert!(cancel_order(&mut ledger, &order, &who(SENDER), &who(SENDER)).is_ok());
    assert_eq!(ledger.balance(&who(SENDER), &sol()), u64::MAX);
}

#[test]
fn execution_fails_where_a_balance_overflows() {
    let (mut ledger, order) = with_native_order(1_000, 100);
    ledger.deposit(&who(TARGET), &sol(), u64::MAX - 89).unwrap();
    let r = execute_order(&mut ledger, &order, &who(TARGET), &who(OWNER), &who(SENDER), 0, T0);
    assert_eq!(r, Err(CustomError::Overflow));

    let (mut ledger, order) = with_native_order(1_000, 100);
    ledger.deposit(&who(TREASURY), &sol(), u64::MAX - 9).unwrap();
    let r = execute_order(&mut ledger, &order, &who(TARGET), &who(OWNER), &who(SENDER), 0, T0);
    assert_eq!(r, Err(CustomError::Overflow));
    assert_eq!(ledger.balance(&who(TARGET), &sol()), 0);
    assert_eq!(ledger.custody_balance(&order, &sol()), 100);

    let (mut ledger, order) = with_native_order(1_000, 100);
    ledger.deposit(&who(TARGET), &sol(), u64::MAX - 90).unwrap();
    ledger.deposit(&who(TREASURY), &sol(), u64::MAX - 10).unwrap();
    assert!(execute_order(&mut ledger, &order, &who(TARGET), &who(OWNER), &who(SENDER), 0, T0).is_ok());
    assert_eq!(ledger.balance(&who(TARGET), &sol()), u64::MAX);
    assert_eq!(ledger.balance(&who(TREASURY), &sol()), u64::MAX);
}

#[test]
fn cancel_fails_where_the_refund_overflows() {
    let (mut ledger, order) = with_native_order(100, 50);
    ledger.deposit(&who(SENDER), &sol(), u64::MAX - 49).unwrap();
    let r = cancel_order(&mut ledger, &order, &who(SENDER), &who(SENDER));
    assert_eq!(r, Err(CustomError::Overflow));
    assert_eq!(ledger.custody_balance(&order, &sol()), 50);
    assert!(ledger.order(&order).is_some());
}

#[test]
fn treasury_as_target_gets_the_whole_amount() {
    let (mut ledger, order, token) = with_token_order(250, 1000);
    execute_order(&mut ledger, &order, &who(TREASURY), &who(OWNER), &who(SENDER), 0, T0).unwrap();
    assert_eq!(ledger.balance(&who(TREASURY), &token), 1000);

    let (mut ledger, order, token) = with_token_order(250, 1000);
    ledger.deposit(&who(TREASURY), &token, u64::MAX - 999).unwrap();
    let r = execute_order(&mut ledger, &order, &who(TREASURY), &who(OWNER), &who(SENDER), 0, T0);
    assert_eq!(r, Err(CustomError::Overflow));
    assert_eq!(ledger.balance(&who(TREASURY), &token), u64::MAX - 999);
}

#[test]
fn orders_do_not_touch_each_other() {
    let (mut ledger, first) = with_native_order(100, 10_000);
    let token = who(50);
    ledger.deposit(&who(6), &token, 400).unwrap();
    let ctx = OpenOrderSpl { user: who(6), token_mint: token, user_token_mint: token };
    let second = open_order_spl(&mut ledger, &ctx, &request(token, 400), T0).unwrap().order_pubkey;
    execute_order(&mut ledger, &first, &who(TARGET), &who(OWNER), &who(SENDER), 0, T0).unwrap();
    assert_eq!(ledger.custody_balance(&second, &token), 400);
    assert_eq!(ledger.order(&second).unwrap().sender, who(6));
    cancel_order(&mut ledger, &second, &who(6), &who(6)).unwrap();
    assert_eq!(ledger.balance(&who(6), &token), 400);
    assert_eq!(ledger.balance(&who(TARGET), &sol()), 9_900);
}

fn sample_order() -> LimitOrder {
    LimitOrder {
        from_token: who(50),
        from_chain_id: 10002,
        amount_in: 1000,
        to_chain_id: 56,
        to_token: [7; 32],
        recipient: [9; 32],
        sender: who(SENDER),
        expiry: T0,
        amount_out: [0; 32],
        bump: 255,
    }
}

fn sample_config() -> GlobalConfig {
    GlobalConfig { owner: who(OWNER), platform_fee: 250, treasury: who(TREASURY), paused: true, reserved: [0; 128] }
}

#[test]
fn cancel_is_decided_from_order_and_config() {
    let (o, c) = (sample_order(), sample_config());
    assert_eq!(check_cancel(&o, &c, &who(SENDER), &who(SENDER)), Ok(()));
    assert_eq!(check_cancel(&o, &c, &who(OWNER), &who(SENDER)), Ok(()));
    assert_eq!(check_cancel(&o, &c, &who(9), &who(SENDER)), Err(CustomError::Unauthorized));
    assert_eq!(check_cancel(&o, &c, &who(9), &who(9)), Err(CustomError::Unauthorized));
    assert_eq!(check_cancel(&o, &c, &who(OWNER), &who(OWNER)), Err(CustomError::InvalidRefundReceiver));
}

#[test]
fn execution_is_decided_from_order_and_config() {
    let (o, c) = (sample_order(), sample_config());
    assert_eq!(
        check_execute(&o, &c, &who(OWNER), &who(SENDER), T0 - 1),
        Ok(FeeSplit { fee_amount: 25, send_amount: 975 })
    );
    assert_eq!(check_execute(&o, &c, &who(SENDER), &who(SENDER), T0 - 1), Err(CustomError::Unauthorized));
    assert_eq!(check_execute(&o, &c, &who(OWNER), &who(SENDER), T0), Err(CustomError::ExpiryEarlier));
    assert_eq!(check_execute(&o, &c, &who(OWNER), &who(9), T0 - 1), Err(CustomError::InvalidRefundReceiver));
    let mut empty = o;
    empty.amount_in = 0;
    assert_eq!(check_execute(&empty, &c, &who(OWNER), &who(SENDER), T0 - 1), Err(CustomError::InsufficientFunds));
    let mut huge = o;
    huge.amount_in = u64::MAX;
    assert_eq!(check_execute(&huge, &c, &who(OWNER), &who(SENDER), T0 - 1), Err(CustomError::Overflow));
}
