//! Escrow for cross-chain limit orders: a sender locks an asset, the platform
//! owner later releases it to a target less a fee, or the order is cancelled
//! and the asset goes back to the sender.

pub mod accounts;
pub mod address;
pub mod balances;
pub mod book;
pub mod error;
pub mod events;
pub mod fee;
pub mod laws;
pub mod layout;
pub mod ledger;
pub mod records;

pub use accounts::{
    CancelOrderSol, CancelOrderSpl, ExecuteOrderSol, ExecuteOrderSpl, Initialize, OpenOrderSol,
    OpenOrderSpl, UpdateConfig,
};
pub use address::{derive_order_address, native_token, Address};
pub use error::CustomError;
pub use events::{ConfigUpdated, Initialized, OrderCancelled, OrderExecuted, OrderOpened};
pub use fee::{split_fee, FeeSplit};
pub use ledger::close::{
    cancel_order, cancel_order_sol, cancel_order_spl, check_cancel, check_execute, execute_order,
    execute_order_sol, execute_order_spl,
};
pub use ledger::open::{
    check_open_sol, check_open_spl, open_order_sol, open_order_sol_with, open_order_spl,
    open_order_spl_with,
};
pub use ledger::setup::{change_config, create_config, initialize, update_config};
pub use layout::{decode_config, decode_order, encode_config, encode_order};
pub use records::add_order;
pub use ledger::Ledger;
pub use records::{GlobalConfig, LimitOrder, OpenOrderParams};
