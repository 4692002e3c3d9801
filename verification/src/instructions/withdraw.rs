//! Withdrawing deposited funds from a bank.

use vstd::prelude::*;
use crate::accrual::{accrue, accrued};
use crate::error::ErrorCode;
use crate::ledger::{debit, after_debit};
use crate::state::{Bank, Party, Side, Transfer, User};

verus! {

/// What a withdrawal touches: the bank of the withdrawn asset and the owner's position.
#[derive(Clone, Copy, Debug, PartialEq, Eq)]
pub struct Withdraw {
    pub bank: Bank,
    pub user: User,
}

/// The outcome of a withdrawal: the deposit side accrued and the amount taken out.
pub open spec fn withdrawn(bank: Bank, user: User, amount: u64, as_of: i64, interest: u128) -> Result<(Bank, User), ErrorCode> {
    match accrued(bank, Side::Deposit, as_of, interest) {
        Err(e) => Err(e),
        Ok(b) => after_debit(b, user, Side::Deposit, amount),
    }
}

/// Withdraws `amount` of the bank's asset for the user, as of the time `as_of`.
///
/// Accrues the bank's deposits with `interest` and takes the amount out;
/// `InsufficientFunds` when the user's shares are worth less at the accrued
/// totals. The user's cached deposit shrinks by `amount`; where it did not
/// cover the amount it is first brought up to what the shares are worth. On
/// success the caller has to move `amount` from the bank's custody to the
/// user. Fails with the first error of the steps and then changes nothing.
pub fn process_withdraw(ctx: &mut Withdraw, amount: u64, as_of: i64, interest: u128) -> (r: Result<Transfer, ErrorCode>)
    ensures
        match withdrawn(old(ctx).bank, old(ctx).user, amount, as_of, interest) {
            Ok((b, u)) => {
                &&& r == Ok::<Transfer, ErrorCode>(
                    Transfer { asset_id: old(ctx).bank.asset_id, from: Party::Bank, to: Party::User, amount },
                )
                &&& *final(ctx) == (Withdraw { bank: b, user: u })
            },
            Err(e) => r == Err::<Transfer, ErrorCode>(e) && *final(ctx) == *old(ctx),
        },
        r is Ok ==> {
            let asset = old(ctx).bank.asset_id;
            &&& old(ctx).user.holding(asset).amount(Side::Deposit) >= amount ==> final(ctx).user.holding(asset).amount(Side::Deposit) == old(ctx).user.holding(asset).amount(Side::Deposit) - amount
            &&& old(ctx).user.holding(asset).shares(Side::Deposit) - final(ctx).user.holding(asset).shares(
                Side::Deposit,
            ) == old(ctx).bank.shares(Side::Deposit) - final(ctx).bank.shares(Side::Deposit)
            &&& final(ctx).bank.shares(Side::Deposit) <= old(ctx).bank.shares(Side::Deposit)
        },
        forall|other: [u8; 32]|
            other@ != old(ctx).bank.asset_id@ ==> #[trigger] final(ctx).user.holding(other) == old(
                ctx,
            ).user.holding(other),
        old(ctx).bank.wf() ==> final(ctx).bank.wf(),
        old(ctx).user.wf() ==> final(ctx).user.wf(),
{
    let mut b = ctx.bank;
    let mut u = ctx.user;
    match accrue(&mut b, Side::Deposit, as_of, interest) {
        Ok(()) => {},
        Err(e) => {
            return Err(e);
        },
    }
    match debit(&mut b, &mut u, Side::Deposit, amount) {
        Ok(_) => {},
        Err(e) => {
            return Err(e);
        },
    }
    ctx.bank = b;
    ctx.user = u;
    Ok(Transfer { asset_id: b.asset_id, from: Party::Bank, to: Party::User, amount })
}

/// The entry point of a withdrawal; it is [`process_withdraw`].
pub fn withdraw(ctx: &mut Withdraw, amount: u64, as_of: i64, interest: u128) -> (r: Result<Transfer, ErrorCode>)
    ensures
        match withdrawn(old(ctx).bank, old(ctx).user, amount, as_of, interest) {
            Ok((b, u)) => {
                &&& r == Ok::<Transfer, ErrorCode>(
                    Transfer { asset_id: old(ctx).bank.asset_id, from: Party::Bank, to: Party::User, amount },
                )
                &&& *final(ctx) == (Withdraw { bank: b, user: u })
            },
            Err(e) => r == Err::<Transfer, ErrorCode>(e) && *final(ctx) == *old(ctx),
        },
        forall|other: [u8; 32]|
            other@ != old(ctx).bank.asset_id@ ==> #[trigger] final(ctx).user.holding(other) == old(
                ctx,
            ).user.holding(other),
        old(ctx).bank.wf() ==> final(ctx).bank.wf(),
        old(ctx).user.wf() ==> final(ctx).user.wf(),
{
    process_withdraw(ctx, amount, as_of, interest)
}

} // verus!
