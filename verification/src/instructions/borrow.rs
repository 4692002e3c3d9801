//! Borrowing against collateral.

use vstd::prelude::*;
use crate::error::ErrorCode;
use crate::ledger::{after_credit, credit};
use crate::math::lemma_product_fits;
use crate::state::{Bank, Party, Side, Transfer, User};
use crate::valuation::{assess, assessed, borrow_allowed, check_borrow_limit, Observation};

verus! {

/// What a borrow touches and reads: the bank that holds the user's
/// collateral, the bank that lends, the user's position, and what was
/// observed outside the ledger for either bank.
#[derive(Clone, Copy, Debug, PartialEq, Eq)]
pub struct Borrow {
    pub collateral_bank: Bank,
    pub borrow_bank: Bank,
    pub user: User,
    pub collateral_seen: Observation,
    pub borrow_seen: Observation,
}

/// The outcome of a borrow: both banks accrued, the new debt held against
/// the borrow limit, and the amount booked.
pub open spec fn borrowed(
    collateral_bank: Bank,
    borrow_bank: Bank,
    user: User,
    amount: u64,
    as_of: i64,
    max_age: u32,
    collateral_seen: Observation,
    borrow_seen: Observation,
) -> Result<(Bank, Bank, User), ErrorCode> {
    match assessed(collateral_bank, borrow_bank, user, as_of, max_age, collateral_seen, borrow_seen) {
        Err(e) => Err(e),
        Ok((c, b, exposure)) => match borrow_allowed(
            exposure.collateral_usd,
            exposure.debt_usd,
            (amount * exposure.debt_price) as u128,
            c.liquidation_threshold,
        ) {
            Err(e) => Err(e),
            Ok(()) => match after_credit(b, user, Side::Borrow, amount) {
                Err(e) => Err(e),
                Ok((b2, u2)) => Ok((c, b2, u2)),
            },
        },
    }
}

/// Lends `amount` of the asset of `ctx.borrow_bank` to the user against the
/// user's deposit in `ctx.collateral_bank`, as of the time `as_of`.
///
/// Prices the user's collateral and present debt (see
/// [`assess`](crate::valuation::assess)) and refuses with
/// `OverBorrowableAmount` when the collateral value weighted by the
/// collateral bank's liquidation threshold is smaller than the present debt
/// plus `amount` at the oracle's price. Otherwise books the loan: the borrow
/// bank's loans and the user's cached debt grow by `amount`, and the bank's
/// and the user's debt shares by the shares the amount buys at the accrued
/// totals. On success the caller has to move `amount` from the borrow bank's
/// custody to the user. Fails with the first error of these steps and then
/// changes nothing.
pub fn process_borrow(ctx: &mut Borrow, amount: u64, as_of: i64, max_age: u32) -> (r: Result<Transfer, ErrorCode>)
    ensures
        match borrowed(
            old(ctx).collateral_bank,
            old(ctx).borrow_bank,
            old(ctx).user,
            amount,
            as_of,
            max_age,
            old(ctx).collateral_seen,
            old(ctx).borrow_seen,
        ) {
            Ok((c, b, u)) => {
                &&& r == Ok::<Transfer, ErrorCode>(
                    Transfer { asset_id: old(ctx).borrow_bank.asset_id, from: Party::Bank, to: Party::User, amount },
                )
                &&& *final(ctx) == (Borrow { collateral_bank: c, borrow_bank: b, user: u, ..*old(ctx) })
            },
            Err(e) => r == Err::<Transfer, ErrorCode>(e) && *final(ctx) == *old(ctx),
        },
        r is Ok ==> {
            let asset = old(ctx).borrow_bank.asset_id;
            &&& final(ctx).user.holding(asset).borrowed_amount == old(ctx).user.holding(asset).borrowed_amount
                + amount
            &&& final(ctx).user.holding(asset).borrowed_shares - old(ctx).user.holding(asset).borrowed_shares
                == final(ctx).borrow_bank.total_borrowed_shares - old(ctx).borrow_bank.total_borrowed_shares
            &&& final(ctx).user.holding(asset).deposited_amount == old(ctx).user.holding(asset).deposited_amount
            &&& final(ctx).user.holding(asset).deposited_shares == old(ctx).user.holding(asset).deposited_shares
        },
        forall|other: [u8; 32]|
            other@ != old(ctx).borrow_bank.asset_id@ ==> #[trigger] final(ctx).user.holding(other) == old(
                ctx,
            ).user.holding(other),
        old(ctx).collateral_bank.wf() ==> final(ctx).collateral_bank.wf(),
        old(ctx).borrow_bank.wf() ==> final(ctx).borrow_bank.wf(),
        old(ctx).user.wf() ==> final(ctx).user.wf(),
{
    let mut c = ctx.collateral_bank;
    let mut b = ctx.borrow_bank;
    let mut u = ctx.user;
    let exposure = match assess(&mut c, &mut b, &u, as_of, max_age, &ctx.collateral_seen, &ctx.borrow_seen) {
        Ok(x) => x,
        Err(e) => {
            return Err(e);
        },
    };
    proof {
        lemma_product_fits(amount, exposure.debt_price);
    }
    let new_usd: u128 = (amount as u128) * (exposure.debt_price as u128);
    match check_borrow_limit(exposure.collateral_usd, exposure.debt_usd, new_usd, c.liquidation_threshold) {
        Ok(()) => {},
        Err(e) => {
            return Err(e);
        },
    }
    match credit(&mut b, &mut u, Side::Borrow, amount) {
        Ok(_) => {},
        Err(e) => {
            return Err(e);
        },
    }
    ctx.collateral_bank = c;
    ctx.borrow_bank = b;
    ctx.user = u;
    Ok(Transfer { asset_id: b.asset_id, from: Party::Bank, to: Party::User, amount })
}

} // verus!
