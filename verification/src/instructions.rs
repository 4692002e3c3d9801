//! The protocol surface: creating banks and users, deposit, withdraw, borrow,
//! repay and liquidate.
//!
//! Every operation names what it touches in a context of its own, first
//! accrues the bank sides it touches, then adds to or takes from the ledger
//! exactly what it moves, and hands back the transfers that the custody layer
//! has to carry out. An operation that fails changes nothing.

pub mod admin;
pub mod borrow;
pub mod deposit;
pub mod liquidate;
pub mod repay;
pub mod withdraw;

pub use admin::{init_bank, init_user, InitBank, InitUser};
pub use borrow::{process_borrow, Borrow};
pub use deposit::{deposit, Deposit};
pub use liquidate::{
    cap_seizure, liquidation_payout, process_liquidate, seizure, units_for, Liquidate, Liquidation,
    Payout, SeizePolicy,
};
pub use repay::{process_repay, Repay};
pub use withdraw::{process_withdraw, withdraw, Withdraw};
