//! Repaying a loan.

use vstd::prelude::*;
use crate::accrual::{accrue, accrued};
use crate::error::ErrorCode;
use crate::ledger::{debit, after_debit};
use crate::state::{Bank, Party, Side, Transfer, User};

verus! {

/// What a repayment touches: the bank of the repaid asset and the borrower's position.
#[derive(Clone, Copy, Debug, PartialEq, Eq)]
pub struct Repay {
    pub repay_bank: Bank,
    pub user: User,
}

/// The outcome of a repayment: the borrow side accrued and the amount taken off the debt.
pub open spec fn repaid(bank: Bank, user: User, amount: u64, as_of: i64, interest: u128) -> Result<(Bank, User), ErrorCode> {
    match accrued(bank, Side::Borrow, as_of, interest) {
        Err(e) => Err(e),
        Ok(b) => after_debit(b, user, Side::Borrow, amount),
    }
}

/// Repays `amount` of the user's debt in the bank's asset, as of the time `as_of`.
///
/// Accrues the bank's loans with `interest` and takes the amount off the
/// debt; `OverRepay` when the user owes less at the accrued totals. The
/// user's cached debt shrinks by `amount`; where it did not cover the amount
/// it is first brought up to what is owed. On success the caller has to move
/// `amount` from the user into the bank's custody. Fails with the first error
/// of the steps and then changes nothing.
pub fn process_repay(ctx: &mut Repay, amount: u64, as_of: i64, interest: u128) -> (r: Result<Transfer, ErrorCode>)
    ensures
        match repaid(old(ctx).repay_bank, old(ctx).user, amount, as_of, interest) {
            Ok((b, u)) => {
                &&& r == Ok::<Transfer, ErrorCode>(
                    Transfer { asset_id: old(ctx).repay_bank.asset_id, from: Party::User, to: Party::Bank, amount },
                )
                &&& *final(ctx) == (Repay { repay_bank: b, user: u })
            },
            Err(e) => r == Err::<Transfer, ErrorCode>(e) && *final(ctx) == *old(ctx),
        },
        r is Ok ==> {
            let asset = old(ctx).repay_bank.asset_id;
            &&& old(ctx).user.holding(asset).amount(Side::Borrow) >= amount ==> final(ctx).user.holding(asset).amount(Side::Borrow) == old(ctx).user.holding(asset).amount(Side::Borrow) - amount
            &&& old(ctx).user.holding(asset).shares(Side::Borrow) - final(ctx).user.holding(asset).shares(
                Side::Borrow,
            ) == old(ctx).repay_bank.shares(Side::Borrow) - final(ctx).repay_bank.shares(Side::Borrow)
            &&& final(ctx).repay_bank.shares(Side::Borrow) <= old(ctx).repay_bank.shares(Side::Borrow)
        },
        forall|other: [u8; 32]|
            other@ != old(ctx).repay_bank.asset_id@ ==> #[trigger] final(ctx).user.holding(other) == old(
                ctx,
            ).user.holding(other),
        old(ctx).repay_bank.wf() ==> final(ctx).repay_bank.wf(),
        old(ctx).user.wf() ==> final(ctx).user.wf(),
{
    let mut b = ctx.repay_bank;
    let mut u = ctx.user;
    match accrue(&mut b, Side::Borrow, as_of, interest) {
        Ok(()) => {},
        Err(e) => {
            return Err(e);
        },
    }
    match debit(&mut b, &mut u, Side::Borrow, amount) {
        Ok(_) => {},
        Err(e) => {
            return Err(e);
        },
    }
    ctx.repay_bank = b;
    ctx.user = u;
    Ok(Transfer { asset_id: b.asset_id, from: Party::User, to: Party::Bank, amount })
}

} // verus!
