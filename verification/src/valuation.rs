//! Collateral valuation: pricing positions in a common unit and judging
//! their health.
//!
//! A value in the common unit is an amount times the oracle's price of its
//! asset. The health factor of a position is its collateral value, weighted
//! by the collateral bank's liquidation threshold, over its debt value.

use vstd::prelude::*;
use crate::accrual::{accrue, accrued};
use crate::error::ErrorCode;
use crate::ledger::{owned_value, position_value};
use crate::math::{lemma_product_fits, wide_less, wide_product, wide_sum, BPS};
use crate::oracle::{oracle_price, quoted, PriceUpdate};
use crate::state::{Bank, Side, User};

verus! {

/// What the caller observed outside the ledger for one bank at the time of
/// an operation: the interest factor since the bank's last accrual on the
/// side in question, `exp(rate * dt) - 1` in units of 10^-18, and the oracle's
/// latest update for the bank's asset.
#[derive(Clone, Copy, Debug, PartialEq, Eq)]
pub struct Observation {
    pub interest: u128,
    pub update: PriceUpdate,
}

/// A health factor: a fraction in basis points, or infinity for a position
/// without debt.
#[derive(Clone, Copy, Debug, PartialEq, Eq, Structural)]
pub enum HealthFactor {
    Infinite,
    Finite(u128),
}

/// A position priced in the common unit, with the prices used.
#[derive(Clone, Copy, Debug, PartialEq, Eq, Structural)]
pub struct Exposure {
    pub collateral_usd: u128,
    pub debt_usd: u128,
    pub collateral_price: u64,
    pub debt_price: u64,
}

impl HealthFactor {
    /// A position may be liquidated when its health factor is below one.
    pub open spec fn unhealthy(self) -> bool {
        self matches HealthFactor::Finite(bps) && bps < BPS
    }

    /// Tells whether this health factor is below one.
    pub fn is_unhealthy(&self) -> (r: bool)
        ensures
            r == self.unhealthy(),
    {
        match self {
            HealthFactor::Infinite => false,
            HealthFactor::Finite(bps) => *bps < BPS as u128,
        }
    }
}

/// The outcome of valuing `amount` of the asset of `bank`: the accrued bank
/// and the value, or the error that leaves the bank as it was.
pub open spec fn valued(
    bank: Bank,
    side: Side,
    amount: u64,
    as_of: i64,
    seen: Observation,
    max_age: u32,
) -> Result<(Bank, u128), ErrorCode> {
    match accrued(bank, side, as_of, seen.interest) {
        Err(e) => Err(e),
        Ok(b) => match quoted(seen.update, bank.price_feed_id, as_of, max_age) {
            Err(e) => Err(e),
            Ok(quote) => Ok((b, (amount * quote.price) as u128)),
        },
    }
}

/// The outcome of valuing what the user holds on `side` of `bank`: the
/// accrued bank, the value of the user's shares at the accrued totals, and
/// the price used.
pub open spec fn position_valued(
    bank: Bank,
    user: User,
    side: Side,
    as_of: i64,
    seen: Observation,
    max_age: u32,
) -> Result<(Bank, u128, u64), ErrorCode> {
    match accrued(bank, side, as_of, seen.interest) {
        Err(e) => Err(e),
        Ok(b) => if owned_value(b, user, side) > u64::MAX {
            Err(ErrorCode::ArithmeticOverflow)
        } else {
            match quoted(seen.update, bank.price_feed_id, as_of, max_age) {
                Err(e) => Err(e),
                Ok(quote) => Ok((b, (owned_value(b, user, side) * quote.price) as u128, quote.price)),
            }
        },
    }
}

/// The outcome of pricing the user's collateral in one bank and debt in
/// another: both banks accrued, and the two values.
pub open spec fn assessed(
    collateral_bank: Bank,
    debt_bank: Bank,
    user: User,
    as_of: i64,
    max_age: u32,
    collateral_seen: Observation,
    debt_seen: Observation,
) -> Result<(Bank, Bank, Exposure), ErrorCode> {
    match position_valued(collateral_bank, user, Side::Deposit, as_of, collateral_seen, max_age) {
        Err(e) => Err(e),
        Ok((c, collateral_usd, collateral_price)) => match position_valued(
            debt_bank,
            user,
            Side::Borrow,
            as_of,
            debt_seen,
            max_age,
        ) {
            Err(e) => Err(e),
            Ok((d, debt_usd, debt_price)) => Ok(
                (c, d, Exposure { collateral_usd, debt_usd, collateral_price, debt_price }),
            ),
        },
    }
}

/// The health factor of a position with the given values: infinite without
/// debt, else `collateral_usd * threshold / debt_usd` in basis points, rounded
/// down. Fails when the weighted collateral does not fit 128 bits.
pub open spec fn health(collateral_usd: u128, debt_usd: u128, threshold: u64) -> Result<HealthFactor, ErrorCode> {
    if debt_usd == 0 {
        Ok(HealthFactor::Infinite)
    } else if collateral_usd * threshold > u128::MAX {
        Err(ErrorCode::ArithmeticOverflow)
    } else {
        Ok(HealthFactor::Finite(((collateral_usd * threshold) / (debt_usd as int)) as u128))
    }
}

/// Whether a position is under-collateralized: its collateral, weighted by
/// the threshold in basis points, is worth less than its debt. This is the
/// health factor being below one, without any rounding.
pub open spec fn under_collateralized(collateral_usd: nat, debt_usd: nat, threshold: nat) -> bool {
    collateral_usd * threshold < debt_usd * BPS
}

/// Whether a new debt worth `new_usd` may be added to a position: the
/// position with the new debt must not be under-collateralized.
pub open spec fn borrow_allowed(collateral_usd: u128, debt_usd: u128, new_usd: u128, threshold: u64) -> Result<(), ErrorCode> {
    if under_collateralized(collateral_usd as nat, (debt_usd + new_usd) as nat, threshold as nat) {
        Err(ErrorCode::OverBorrowableAmount)
    } else {
        Ok(())
    }
}

/// Values `amount` of the asset of `bank` in the common unit, as of `as_of`,
/// and reports the price used. See [`value_usd`].
pub fn quote_value(
    bank: &mut Bank,
    side: Side,
    amount: u64,
    as_of: i64,
    seen: &Observation,
    max_age: u32,
) -> (r: Result<(u128, u64), ErrorCode>)
    ensures
        match valued(*old(bank), side, amount, as_of, *seen, max_age) {
            Ok((b, value)) => {
                &&& r is Ok
                &&& r->Ok_0.0 == value
                &&& quoted(seen.update, old(bank).price_feed_id, as_of, max_age) matches Ok(quote) && r->Ok_0.1 == quote.price
                &&& *final(bank) == b
            },
            Err(e) => r == Err::<(u128, u64), ErrorCode>(e) && *final(bank) == *old(bank),
        },
        old(bank).wf() ==> final(bank).wf(),
{
    let mut accrued_bank = *bank;
    match accrue(&mut accrued_bank, side, as_of, seen.interest) {
        Ok(()) => {},
        Err(e) => {
            return Err(e);
        },
    }
    let quote = match oracle_price(&seen.update, &accrued_bank.price_feed_id, as_of, max_age) {
        Ok(q) => q,
        Err(e) => {
            return Err(e);
        },
    };
    proof {
        lemma_product_fits(amount, quote.price);
    }
    let value: u128 = (amount as u128) * (quote.price as u128);
    *bank = accrued_bank;
    Ok((value, quote.price))
}

/// Values `amount` of the asset of `bank` in the common unit, as of `as_of`.
///
/// Accrues `side` of the bank with `seen.interest`, asks the oracle for the
/// price of the bank's own feed no older than `max_age`, and returns
/// `amount * price`. Fails as [`accrue`](crate::accrual::accrue) does, or else
/// as [`oracle_price`] does; a failure leaves the bank as it was.
pub fn value_usd(
    bank: &mut Bank,
    side: Side,
    amount: u64,
    as_of: i64,
    seen: &Observation,
    max_age: u32,
) -> (r: Result<u128, ErrorCode>)
    ensures
        match valued(*old(bank), side, amount, as_of, *seen, max_age) {
            Ok((b, value)) => r == Ok::<u128, ErrorCode>(value) && *final(bank) == b,
            Err(e) => r == Err::<u128, ErrorCode>(e) && *final(bank) == *old(bank),
        },
        old(bank).wf() ==> final(bank).wf(),
{
    match quote_value(bank, side, amount, as_of, seen, max_age) {
        Ok((value, _)) => Ok(value),
        Err(e) => Err(e),
    }
}

/// Values what the user holds on `side` of `bank`, as of `as_of`: accrues the
/// side, takes what the user's shares are worth at the accrued totals, and
/// prices that amount with the feed of the bank's asset.
///
/// Returns the value and the price used. Fails as `accrue` does, else with
/// `ArithmeticOverflow` when the shares' worth does not fit 64 bits, else as
/// the oracle does; a failure leaves the bank as it was.
pub fn value_position(
    bank: &mut Bank,
    user: &User,
    side: Side,
    as_of: i64,
    seen: &Observation,
    max_age: u32,
) -> (r: Result<(u128, u64), ErrorCode>)
    ensures
        match position_valued(*old(bank), *user, side, as_of, *seen, max_age) {
            Ok((b, value, price)) => r == Ok::<(u128, u64), ErrorCode>((value, price)) && *final(bank) == b,
            Err(e) => r == Err::<(u128, u64), ErrorCode>(e) && *final(bank) == *old(bank),
        },
        old(bank).wf() ==> final(bank).wf(),
{
    let mut accrued_bank = *bank;
    match accrue(&mut accrued_bank, side, as_of, seen.interest) {
        Ok(()) => {},
        Err(e) => {
            return Err(e);
        },
    }
    let worth = position_value(&accrued_bank, user, side);
    if worth > u64::MAX as u128 {
        return Err(ErrorCode::ArithmeticOverflow);
    }
    let found = match quote_value(&mut accrued_bank, side, worth as u64, as_of, seen, max_age) {
        Ok(found) => found,
        Err(e) => {
            return Err(e);
        },
    };
    *bank = accrued_bank;
    Ok(found)
}

/// Prices the user's collateral in `collateral_bank` and debt in `debt_bank`
/// as of `as_of`, accruing the deposit side of the first and the borrow side
/// of the second.
///
/// Fails as [`value_position`] does, on the collateral first; a failure
/// leaves both banks as they were.
pub fn assess(
    collateral_bank: &mut Bank,
    debt_bank: &mut Bank,
    user: &User,
    as_of: i64,
    max_age: u32,
    collateral_seen: &Observation,
    debt_seen: &Observation,
) -> (r: Result<Exposure, ErrorCode>)
    ensures
        match assessed(
            *old(collateral_bank),
            *old(debt_bank),
            *user,
            as_of,
            max_age,
            *collateral_seen,
            *debt_seen,
        ) {
            Ok((c, d, exposure)) => {
                &&& r == Ok::<Exposure, ErrorCode>(exposure)
                &&& *final(collateral_bank) == c
                &&& *final(debt_bank) == d
            },
            Err(e) => {
                &&& r == Err::<Exposure, ErrorCode>(e)
                &&& *final(collateral_bank) == *old(collateral_bank)
                &&& *final(debt_bank) == *old(debt_bank)
            },
        },
        old(collateral_bank).wf() ==> final(collateral_bank).wf(),
        old(debt_bank).wf() ==> final(debt_bank).wf(),
{
    let mut collateral = *collateral_bank;
    let mut debt = *debt_bank;
    let (collateral_usd, collateral_price) = match value_position(
        &mut collateral,
        user,
        Side::Deposit,
        as_of,
        collateral_seen,
        max_age,
    ) {
        Ok(found) => found,
        Err(e) => {
            return Err(e);
        },
    };
    let (debt_usd, debt_price) = match value_position(&mut debt, user, Side::Borrow, as_of, debt_seen, max_age) {
        Ok(found) => found,
        Err(e) => {
            return Err(e);
        },
    };
    *collateral_bank = collateral;
    *debt_bank = debt;
    Ok(Exposure { collateral_usd, debt_usd, collateral_price, debt_price })
}

/// Computes the health factor of a position from its two values and the
/// collateral bank's liquidation threshold: infinite when `debt_usd` is zero,
/// else `collateral_usd * threshold / debt_usd` in basis points, rounded down.
///
/// Fails with `ArithmeticOverflow` exactly when there is debt and the
/// weighted collateral does not fit 128 bits.
pub fn health_of(collateral_usd: u128, debt_usd: u128, threshold: u64) -> (r: Result<HealthFactor, ErrorCode>)
    ensures
        r == health(collateral_usd, debt_usd, threshold),
{
    if debt_usd == 0 {
        return Ok(HealthFactor::Infinite);
    }
    match collateral_usd.checked_mul(threshold as u128) {
        Some(weighted) => Ok(HealthFactor::Finite(weighted / debt_usd)),
        None => Err(ErrorCode::ArithmeticOverflow),
    }
}

/// Tells whether a position with the given collateral and a debt of
/// `debt_usd + new_usd` is under-collateralized at `threshold`.
///
/// The products are compared in full width: the answer is exact for all values.
pub fn is_under_collateralized(collateral_usd: u128, threshold: u64, debt_usd: u128, new_usd: u128) -> (r: bool)
    ensures
        r == under_collateralized(collateral_usd as nat, (debt_usd + new_usd) as nat, threshold as nat),
{
    let weighted = wide_product(collateral_usd, threshold);
    let owed = wide_sum(wide_product(debt_usd, BPS), wide_product(new_usd, BPS));
    assert((debt_usd + new_usd) * BPS == debt_usd * BPS + new_usd * BPS) by (nonlinear_arith);
    wide_less(weighted, owed)
}

/// Decides whether a new debt worth `new_usd` may be added to a position.
///
/// Fails with `OverBorrowableAmount` exactly when `collateral_usd * threshold`
/// is smaller than `(debt_usd + new_usd) * BPS`, for all values.
pub fn check_borrow_limit(collateral_usd: u128, debt_usd: u128, new_usd: u128, threshold: u64) -> (r: Result<(), ErrorCode>)
    ensures
        r == borrow_allowed(collateral_usd, debt_usd, new_usd, threshold),
{
    if is_under_collateralized(collateral_usd, threshold, debt_usd, new_usd) {
        Err(ErrorCode::OverBorrowableAmount)
    } else {
        Ok(())
    }
}

/// Computes the health factor of `user` with collateral in `collateral_bank`
/// and debt in `debt_bank`, as of `as_of`.
///
/// Both banks are accrued to `as_of`. Fails as [`assess`] does, or else as
/// [`health_of`] does; a failure leaves both banks as they were.
pub fn health_factor(
    user: &User,
    collateral_bank: &mut Bank,
    debt_bank: &mut Bank,
    as_of: i64,
    max_age: u32,
    collateral_seen: &Observation,
    debt_seen: &Observation,
) -> (r: Result<HealthFactor, ErrorCode>)
    ensures
        match assessed(
            *old(collateral_bank),
            *old(debt_bank),
            *user,
            as_of,
            max_age,
            *collateral_seen,
            *debt_seen,
        ) {
            Ok((c, d, exposure)) => match health(
                exposure.collateral_usd,
                exposure.debt_usd,
                c.liquidation_threshold,
            ) {
                Ok(h) => {
                    &&& r == Ok::<HealthFactor, ErrorCode>(h)
                    &&& *final(collateral_bank) == c
                    &&& *final(debt_bank) == d
                },
                Err(e) => {
                    &&& r == Err::<HealthFactor, ErrorCode>(e)
                    &&& *final(collateral_bank) == *old(collateral_bank)
                    &&& *final(debt_bank) == *old(debt_bank)
                },
            },
            Err(e) => {
                &&& r == Err::<HealthFactor, ErrorCode>(e)
                &&& *final(collateral_bank) == *old(collateral_bank)
                &&& *final(debt_bank) == *old(debt_bank)
            },
        },
        old(collateral_bank).wf() ==> final(collateral_bank).wf(),
        old(debt_bank).wf() ==> final(debt_bank).wf(),
{
    let mut collateral = *collateral_bank;
    let mut debt = *debt_bank;
    let exposure = match assess(&mut collateral, &mut debt, user, as_of, max_age, collateral_seen, debt_seen) {
        Ok(x) => x,
        Err(e) => {
            return Err(e);
        },
    };
    let factor = match health_of(exposure.collateral_usd, exposure.debt_usd, collateral.liquidation_threshold) {
        Ok(h) => h,
        Err(e) => {
            return Err(e);
        },
    };
    *collateral_bank = collateral;
    *debt_bank = debt;
    Ok(factor)
}

} // verus!
