//! Accounting core of an over-collateralized lending protocol.
//!
//! The crate keeps, for every supported asset, a [`Bank`] (the asset's
//! liquidity pool) and, for every participant, a [`User`] position, which
//! holds one record of balances per asset: one for the reference asset and
//! one for a single other asset of the user's choosing. Deposits
//! and borrows are tracked as proportional shares of the bank's totals, which
//! grow by continuous compounding. Collateral and debt are priced through an
//! oracle, and positions whose health factor drops below one can be liquidated.
//!
//! Every operation is a synchronous state transition: it either commits all of
//! its effects or fails with an [`ErrorCode`] and leaves its arguments untouched.
//! Moving the actual funds is left to the caller, who receives a [`Transfer`]
//! describing what has to be moved.

pub mod accrual;
pub mod error;
pub mod instructions;
pub mod laws;
pub mod ledger;
pub mod math;
pub mod oracle;
pub mod state;
pub mod valuation;

pub use error::ErrorCode;
pub use instructions::{
    deposit, init_bank, init_user, process_borrow, process_liquidate, process_repay,
    process_withdraw, withdraw, Borrow, Deposit, InitBank, InitUser, Liquidate, Repay, Withdraw,
};
pub use math::{BPS, WAD};
pub use state::{acquired_first, same_id, AssetClass, Bank, Party, Position, Side, Transfer, User};
