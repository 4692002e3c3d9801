//! Depositing funds into a bank.

use vstd::prelude::*;
use crate::accrual::{accrue, accrued};
use crate::error::ErrorCode;
use crate::ledger::{credit, after_credit};
use crate::state::{Bank, Party, Side, Transfer, User};

verus! {

/// What a deposit touches: the bank of the deposited asset and the depositor's position.
#[derive(Clone, Copy, Debug, PartialEq, Eq)]
pub struct Deposit {
    pub bank: Bank,
    pub user: User,
}

/// The outcome of a deposit: the deposit side accrued and the amount credited.
pub open spec fn deposited(bank: Bank, user: User, amount: u64, as_of: i64, interest: u128) -> Result<(Bank, User), ErrorCode> {
    match accrued(bank, Side::Deposit, as_of, interest) {
        Err(e) => Err(e),
        Ok(b) => after_credit(b, user, Side::Deposit, amount),
    }
}

/// Deposits `amount` of the bank's asset for the user, as of the time `as_of`.
///
/// Accrues the bank's deposits with `interest` and credits the amount: the
/// bank's deposits and the user's cached deposit grow by `amount`, and the
/// bank's and the user's shares by the shares the amount buys at the accrued
/// totals. On success the caller has to move `amount` from the user into the
/// bank's custody. Fails with the first error of the two steps and then
/// changes nothing.
pub fn deposit(ctx: &mut Deposit, amount: u64, as_of: i64, interest: u128) -> (r: Result<Transfer, ErrorCode>)
    ensures
        match deposited(old(ctx).bank, old(ctx).user, amount, as_of, interest) {
            Ok((b, u)) => {
                &&& r == Ok::<Transfer, ErrorCode>(
                    Transfer { asset_id: old(ctx).bank.asset_id, from: Party::User, to: Party::Bank, amount },
                )
                &&& *final(ctx) == (Deposit { bank: b, user: u })
            },
            Err(e) => r == Err::<Transfer, ErrorCode>(e) && *final(ctx) == *old(ctx),
        },
        r is Ok ==> {
            let asset = old(ctx).bank.asset_id;
            &&& final(ctx).user.holding(asset).amount(Side::Deposit) == old(ctx).user.holding(asset).amount(
                Side::Deposit,
            ) + amount
            &&& final(ctx).user.holding(asset).shares(Side::Deposit) - old(ctx).user.holding(asset).shares(
                Side::Deposit,
            ) == final(ctx).bank.shares(Side::Deposit) - old(ctx).bank.shares(Side::Deposit)
            &&& final(ctx).bank.shares(Side::Deposit) >= old(ctx).bank.shares(Side::Deposit)
        },
        forall|other: [u8; 32]|
            other@ != old(ctx).bank.asset_id@ ==> #[trigger] final(ctx).user.holding(other) == old(
                ctx,
            ).user.holding(other),
        old(ctx).bank.wf() ==> final(ctx).bank.wf(),
        old(ctx).user.wf() ==> final(ctx).user.wf(),
{
    let mut b = ctx.bank;
    let mut u = ctx.user;
    match accrue(&mut b, Side::Deposit, as_of, interest) {
        Ok(()) => {},
        Err(e) => {
            return Err(e);
        },
    }
    match credit(&mut b, &mut u, Side::Deposit, amount) {
        Ok(_) => {},
        Err(e) => {
            return Err(e);
        },
    }
    ctx.bank = b;
    ctx.user = u;
    Ok(Transfer { asset_id: b.asset_id, from: Party::User, to: Party::Bank, amount })
}

} // verus!
