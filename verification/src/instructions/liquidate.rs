//! Liquidating a position whose health factor is below one.
//!
//! A liquidator repays a part of the debt, capped by the debt bank's close
//! factor, and receives collateral worth that part plus the collateral bank's
//! bonus. What happens when the position does not hold that much collateral
//! is a matter of policy: either the whole liquidation fails, or the seizure
//! is capped at what the position holds and the repayment shrinks in proportion.
//!
//! The seizure is derived from the whole units of debt that are repaid, never
//! from a value that was not repaid: a liquidation that repays nothing seizes
//! nothing.

use vstd::prelude::*;
use crate::error::ErrorCode;
use crate::ledger::{after_debit, debit, owned_value, position_value};
use crate::math::{lemma_mul_div_at_most, lemma_product_fits, mul_div, mul_div_floor, BPS};
use crate::state::{Bank, Party, Side, Transfer, User};
use crate::valuation::{assess, assessed, is_under_collateralized, under_collateralized, Observation};

verus! {

/// What a liquidation touches and reads: the bank that holds the collateral,
/// the bank that lent, the position being liquidated, and what was observed
/// outside the ledger for either bank.
#[derive(Clone, Copy, Debug, PartialEq, Eq)]
pub struct Liquidate {
    pub collateral_bank: Bank,
    pub borrowed_bank: Bank,
    pub user_account: User,
    pub collateral_seen: Observation,
    pub borrowed_seen: Observation,
}

/// What a liquidation does when it would seize more collateral than the
/// position holds.
#[derive(Clone, Copy, Debug, PartialEq, Eq, Structural)]
pub enum SeizePolicy {
    /// The whole liquidation fails with `InsufficientFunds`.
    FailWhole,
    /// The seizure is capped at what the position holds, and the repayment
    /// is reduced in the same proportion.
    CapAtBalance,
}

/// The two sides of a liquidation in the common unit.
#[derive(Clone, Copy, Debug, PartialEq, Eq, Structural)]
pub struct Payout {
    pub repay_usd: u128,
    pub seize_usd: u128,
}

/// The two transfers of a liquidation: what the liquidator pays into the debt
/// bank and what the collateral bank pays out to the liquidator.
#[derive(Clone, Copy, Debug, PartialEq, Eq)]
pub struct Liquidation {
    pub repay: Transfer,
    pub seize: Transfer,
}

/// What one liquidation repays and seizes: `debt_usd * close_factor` of the
/// debt, and that much plus the bonus in collateral, both rounded down.
pub open spec fn payout(debt_usd: u128, close_factor: u64, bonus: u64) -> Result<Payout, ErrorCode> {
    let repay_usd = (debt_usd * close_factor) / (BPS as int);
    if debt_usd * close_factor > u128::MAX || repay_usd * (BPS + bonus) > u128::MAX {
        Err(ErrorCode::ArithmeticOverflow)
    } else {
        Ok(
            Payout {
                repay_usd: repay_usd as u128,
                seize_usd: ((repay_usd * (BPS + bonus)) / (BPS as int)) as u128,
            },
        )
    }
}

/// The whole units of an asset that `usd` buys at `price`.
pub open spec fn in_units(usd: u128, price: u64) -> Result<u64, ErrorCode> {
    if price == 0 {
        Err(ErrorCode::DivisionByZero)
    } else if usd as int / price as int > u64::MAX {
        Err(ErrorCode::ArithmeticOverflow)
    } else {
        Ok((usd as int / price as int) as u64)
    }
}

/// The whole units of collateral that a repayment of `repay` units of debt
/// earns: the value repaid, `repay * debt_price`, raised by the bonus and
/// divided by the collateral's price, rounding down at both steps.
pub open spec fn seizure_for(repay: u64, debt_price: u64, collateral_price: u64, bonus: u64) -> Result<u64, ErrorCode> {
    if repay * debt_price * (BPS + bonus) > u128::MAX {
        Err(ErrorCode::ArithmeticOverflow)
    } else {
        in_units(((repay * debt_price * (BPS + bonus)) / (BPS as int)) as u128, collateral_price)
    }
}

/// The amounts that a liquidation settles, given what it would repay and
/// seize and what the position's collateral is worth. Under `CapAtBalance`,
/// where the seizure exceeds `available`, the repayment becomes
/// `repay * available / seize`, rounded down, and the seizure what that
/// repayment earns, but no more than `available`; otherwise both stay as
/// they are.
pub open spec fn capped(
    policy: SeizePolicy,
    repay: u64,
    seize: u64,
    available: nat,
    debt_price: u64,
    collateral_price: u64,
    bonus: u64,
) -> Result<(u64, u64), ErrorCode> {
    if policy == SeizePolicy::CapAtBalance && seize > available {
        let reduced = mul_div(repay as nat, available, seize as nat) as u64;
        match seizure_for(reduced, debt_price, collateral_price, bonus) {
            Err(e) => Err(e),
            Ok(earned) => Ok(
                (
                    reduced,
                    if earned <= available {
                        earned
                    } else {
                        available as u64
                    },
                ),
            ),
        }
    } else {
        Ok((repay, seize))
    }
}

/// The outcome of settling a liquidation on accrued banks: the user's debt
/// is reduced by `repay`, then the user's deposit by `seize`.
pub open spec fn settled(collateral_bank: Bank, debt_bank: Bank, user: User, repay: u64, seize: u64) -> Result<(Bank, Bank, User), ErrorCode> {
    match after_debit(debt_bank, user, Side::Borrow, repay) {
        Err(e) => Err(e),
        Ok((d, u1)) => match after_debit(collateral_bank, u1, Side::Deposit, seize) {
            Err(e) => Err(e),
            Ok((c, u2)) => Ok((c, d, u2)),
        },
    }
}

/// The outcome of a liquidation: the new banks and user with the amounts
/// repaid and seized, or the error that leaves everything as it was.
pub open spec fn liquidated(
    collateral_bank: Bank,
    debt_bank: Bank,
    user: User,
    as_of: i64,
    max_age: u32,
    policy: SeizePolicy,
    collateral_seen: Observation,
    debt_seen: Observation,
) -> Result<(Bank, Bank, User, u64, u64), ErrorCode> {
    match assessed(collateral_bank, debt_bank, user, as_of, max_age, collateral_seen, debt_seen) {
        Err(e) => Err(e),
        Ok((c, d, exposure)) => {
            if !under_collateralized(
                exposure.collateral_usd as nat,
                exposure.debt_usd as nat,
                c.liquidation_threshold as nat,
            ) {
                Err(ErrorCode::NotUnderCollateralized)
            } else {
                match payout(exposure.debt_usd, d.liquidation_close_factor, c.liquidation_bonus) {
                    Err(e) => Err(e),
                    Ok(due) => match in_units(due.repay_usd, exposure.debt_price) {
                        Err(e) => Err(e),
                        Ok(repay) => match seizure_for(
                            repay,
                            exposure.debt_price,
                            exposure.collateral_price,
                            c.liquidation_bonus,
                        ) {
                            Err(e) => Err(e),
                            Ok(seize) => match capped(
                                policy,
                                repay,
                                seize,
                                owned_value(c, user, Side::Deposit),
                                exposure.debt_price,
                                exposure.collateral_price,
                                c.liquidation_bonus,
                            ) {
                                Err(e) => Err(e),
                                Ok((repaid, seized)) => match settled(c, d, user, repaid, seized) {
                                    Err(e) => Err(e),
                                    Ok((c2, d2, u2)) => Ok((c2, d2, u2, repaid, seized)),
                                },
                            },
                        },
                    },
                }
            }
        },
    }
}

/// Computes what one liquidation repays and seizes, in the common unit:
/// `repay_usd = debt_usd * close_factor / BPS` and
/// `seize_usd = repay_usd * (BPS + bonus) / BPS`, both rounded down.
///
/// Fails with `ArithmeticOverflow` exactly when one of the two products does
/// not fit 128 bits.
pub fn liquidation_payout(debt_usd: u128, close_factor: u64, bonus: u64) -> (r: Result<Payout, ErrorCode>)
    ensures
        r == payout(debt_usd, close_factor, bonus),
{
    let capped = match debt_usd.checked_mul(close_factor as u128) {
        Some(v) => v,
        None => {
            return Err(ErrorCode::ArithmeticOverflow);
        },
    };
    let repay_usd: u128 = capped / (BPS as u128);
    let with_bonus: u128 = BPS as u128 + bonus as u128;
    let raised = match repay_usd.checked_mul(with_bonus) {
        Some(v) => v,
        None => {
            return Err(ErrorCode::ArithmeticOverflow);
        },
    };
    Ok(Payout { repay_usd, seize_usd: raised / (BPS as u128) })
}

/// Converts a value in the common unit into whole units of an asset at `price`.
///
/// Fails with `DivisionByZero` when `price` is zero, else with
/// `ArithmeticOverflow` when the quotient does not fit 64 bits.
pub fn units_for(usd: u128, price: u64) -> (r: Result<u64, ErrorCode>)
    ensures
        r == in_units(usd, price),
{
    if price == 0 {
        return Err(ErrorCode::DivisionByZero);
    }
    let units: u128 = usd / (price as u128);
    if units > u64::MAX as u128 {
        Err(ErrorCode::ArithmeticOverflow)
    } else {
        Ok(units as u64)
    }
}

/// Computes the whole units of collateral that a repayment of `repay` units
/// of debt earns: `repay * debt_price * (BPS + bonus) / BPS / collateral_price`,
/// rounding down at both divisions. A repayment of nothing earns nothing.
///
/// Fails with `ArithmeticOverflow` when the raised value does not fit 128
/// bits, else with `DivisionByZero` when the collateral's price is zero, else
/// with `ArithmeticOverflow` when the units do not fit 64 bits.
pub fn seizure(repay: u64, debt_price: u64, collateral_price: u64, bonus: u64) -> (r: Result<u64, ErrorCode>)
    ensures
        r == seizure_for(repay, debt_price, collateral_price, bonus),
        repay == 0 ==> (r matches Ok(earned) ==> earned == 0),
{
    proof {
        lemma_product_fits(repay, debt_price);
    }
    let repaid_usd: u128 = (repay as u128) * (debt_price as u128);
    let with_bonus: u128 = BPS as u128 + bonus as u128;
    proof {
        assert(repay * debt_price * (BPS + bonus) == repaid_usd * with_bonus) by (nonlinear_arith)
            requires
                repaid_usd == repay * debt_price,
                with_bonus == BPS + bonus,
        ;
        if repay == 0 {
            assert(repaid_usd * with_bonus == 0) by (nonlinear_arith)
                requires
                    repaid_usd == 0,
            ;
        }
    }
    let raised = match repaid_usd.checked_mul(with_bonus) {
        Some(v) => v,
        None => {
            return Err(ErrorCode::ArithmeticOverflow);
        },
    };
    units_for(raised / (BPS as u128), collateral_price)
}

/// Applies the seize policy to the amounts of a liquidation, where
/// `available` is what the position's collateral is worth.
///
/// Under `CapAtBalance`, when `seize` exceeds `available`, the repayment
/// becomes `repay * available / seize` rounded down and the seizure what that
/// repayment earns (see [`seizure`]), but no more than `available`; in every
/// other case `repay` and `seize` come back unchanged. Fails as `seizure` does.
pub fn cap_seizure(
    policy: SeizePolicy,
    repay: u64,
    seize: u64,
    available: u128,
    debt_price: u64,
    collateral_price: u64,
    bonus: u64,
) -> (r: Result<(u64, u64), ErrorCode>)
    ensures
        r == capped(policy, repay, seize, available as nat, debt_price, collateral_price, bonus),
        r matches Ok((repaid, seized)) ==> {
            &&& repaid <= repay
            &&& seized <= seize
            &&& policy == SeizePolicy::CapAtBalance ==> seized <= available
            &&& (repay == 0 ==> seize == 0) ==> (repaid == 0 ==> seized == 0)
        },
{
    match policy {
        SeizePolicy::FailWhole => Ok((repay, seize)),
        SeizePolicy::CapAtBalance => {
            if seize as u128 > available {
                let held: u64 = available as u64;
                proof {
                    assert(repay as nat * held as nat <= repay as nat * seize as nat) by (nonlinear_arith)
                        requires
                            held <= seize,
                    ;
                    lemma_mul_div_at_most(repay as nat, held as nat, seize as nat, repay as nat);
                }
                let reduced: u128 = mul_div_floor(repay, held, seize);
                let earned = match seizure(reduced as u64, debt_price, collateral_price, bonus) {
                    Ok(v) => v,
                    Err(e) => {
                        return Err(e);
                    },
                };
                if earned <= held {
                    Ok((reduced as u64, earned))
                } else {
                    Ok((reduced as u64, held))
                }
            } else {
                Ok((repay, seize))
            }
        },
    }
}

/// Liquidates the position `ctx.user_account` with collateral in
/// `ctx.collateral_bank` and debt in `ctx.borrowed_bank`, as of the time `as_of`.
///
/// Prices the position (see [`assess`](crate::valuation::assess)) and refuses
/// with `NotUnderCollateralized` exactly when its health factor is not below
/// one: when there is no debt, or the collateral weighted by the collateral
/// bank's threshold covers the debt. Then
/// takes the part of the debt that the debt bank's close factor allows,
/// converts it into whole units of the debt asset at the oracle's price,
/// derives the seizure from those units and the collateral bank's bonus (see
/// [`seizure`]), applies `policy` (see [`cap_seizure`]), takes the repaid
/// amount off the user's debt and the seized amount out of the user's
/// deposit. Under `FailWhole` a seizure larger than the deposit is worth
/// fails with `InsufficientFunds`. On success the caller has
/// to move the repaid amount from the liquidator into the debt bank's custody
/// and the seized amount from the collateral bank's custody to the
/// liquidator. Fails with the first error of these steps and then changes
/// nothing: debt is never reduced without collateral being seized.
pub fn process_liquidate(ctx: &mut Liquidate, as_of: i64, max_age: u32, policy: SeizePolicy) -> (r: Result<
    Liquidation,
    ErrorCode,
>)
    ensures
        match liquidated(
            old(ctx).collateral_bank,
            old(ctx).borrowed_bank,
            old(ctx).user_account,
            as_of,
            max_age,
            policy,
            old(ctx).collateral_seen,
            old(ctx).borrowed_seen,
        ) {
            Ok((c, d, u, repay, seize)) => {
                &&& r == Ok::<Liquidation, ErrorCode>(
                    Liquidation {
                        repay: Transfer {
                            asset_id: old(ctx).borrowed_bank.asset_id,
                            from: Party::Liquidator,
                            to: Party::Bank,
                            amount: repay,
                        },
                        seize: Transfer {
                            asset_id: old(ctx).collateral_bank.asset_id,
                            from: Party::Bank,
                            to: Party::Liquidator,
                            amount: seize,
                        },
                    },
                )
                &&& *final(ctx) == (Liquidate { collateral_bank: c, borrowed_bank: d, user_account: u, ..*old(ctx) })
            },
            Err(e) => r == Err::<Liquidation, ErrorCode>(e) && *final(ctx) == *old(ctx),
        },
        r matches Ok(done) ==> (done.repay.amount == 0 ==> done.seize.amount == 0),
        forall|other: [u8; 32]|
            other@ != old(ctx).collateral_bank.asset_id@ && other@ != old(ctx).borrowed_bank.asset_id@
                ==> #[trigger] final(ctx).user_account.holding(other) == old(ctx).user_account.holding(other),
        old(ctx).collateral_bank.wf() ==> final(ctx).collateral_bank.wf(),
        old(ctx).borrowed_bank.wf() ==> final(ctx).borrowed_bank.wf(),
        old(ctx).user_account.wf() ==> final(ctx).user_account.wf(),
{
    let mut c = ctx.collateral_bank;
    let mut d = ctx.borrowed_bank;
    let mut u = ctx.user_account;
    let exposure = match assess(&mut c, &mut d, &u, as_of, max_age, &ctx.collateral_seen, &ctx.borrowed_seen) {
        Ok(x) => x,
        Err(e) => {
            return Err(e);
        },
    };
    if !is_under_collateralized(exposure.collateral_usd, c.liquidation_threshold, exposure.debt_usd, 0) {
        return Err(ErrorCode::NotUnderCollateralized);
    }
    let due = match liquidation_payout(exposure.debt_usd, d.liquidation_close_factor, c.liquidation_bonus) {
        Ok(p) => p,
        Err(e) => {
            return Err(e);
        },
    };
    let repay = match units_for(due.repay_usd, exposure.debt_price) {
        Ok(v) => v,
        Err(e) => {
            return Err(e);
        },
    };
    let seize = match seizure(repay, exposure.debt_price, exposure.collateral_price, c.liquidation_bonus) {
        Ok(v) => v,
        Err(e) => {
            return Err(e);
        },
    };
    let (repay, seize) = match cap_seizure(
        policy,
        repay,
        seize,
        position_value(&c, &u, Side::Deposit),
        exposure.debt_price,
        exposure.collateral_price,
        c.liquidation_bonus,
    ) {
        Ok(found) => found,
        Err(e) => {
            return Err(e);
        },
    };
    match debit(&mut d, &mut u, Side::Borrow, repay) {
        Ok(_) => {},
        Err(e) => {
            return Err(e);
        },
    }
    match debit(&mut c, &mut u, Side::Deposit, seize) {
        Ok(_) => {},
        Err(e) => {
            return Err(e);
        },
    }
    ctx.collateral_bank = c;
    ctx.borrowed_bank = d;
    ctx.user_account = u;
    Ok(
        Liquidation {
            repay: Transfer { asset_id: d.asset_id, from: Party::Liquidator, to: Party::Bank, amount: repay },
            seize: Transfer { asset_id: c.asset_id, from: Party::Bank, to: Party::Liquidator, amount: seize },
        },
    )
}

} // verus!
