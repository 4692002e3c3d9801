//! Interest accrual: advancing one side of a bank to the current time.
//!
//! Interest compounds continuously: over an interval `dt` a total grows by the
//! factor `exp(rate * dt)`. The exponential is not computed here. The caller
//! supplies `interest`, the part of that factor above one, `exp(rate * dt) - 1`,
//! in units of 10^-18, and the ledger applies it in integer arithmetic,
//! rounding the grown total toward zero.

use vstd::prelude::*;
use crate::error::ErrorCode;
use crate::math::WAD;
use crate::state::{Bank, Side};

verus! {

/// `principal` grown by the factor `1 + interest / WAD`, rounded toward zero.
pub open spec fn compounded(principal: nat, interest: nat) -> nat {
    principal + (principal * interest) / (WAD as nat)
}

/// The time that passed on `side` of `bank` up to `as_of`. Negative when
/// `as_of` lies before the side's clock.
pub open spec fn elapsed_time(bank: Bank, side: Side, as_of: i64) -> int {
    as_of - bank.clock(side)
}

/// The outcome of accruing `side` of `bank` up to `as_of`: the new bank, or
/// the error that leaves it as it was.
pub open spec fn accrued(bank: Bank, side: Side, as_of: i64, interest: u128) -> Result<Bank, ErrorCode> {
    if elapsed_time(bank, side, as_of) < 0 {
        Err(ErrorCode::ClockSkew)
    } else if elapsed_time(bank, side, as_of) == 0 {
        Ok(bank)
    } else if compounded(bank.total(side) as nat, interest as nat) > u64::MAX {
        Err(ErrorCode::ArithmeticOverflow)
    } else {
        Ok(
            bank.with_totals(
                side,
                compounded(bank.total(side) as nat, interest as nat) as u64,
                bank.shares(side),
            ).with_clock(side, as_of),
        )
    }
}

/// Compounding never shrinks a principal, and it raises it as soon as the
/// interest amounts to one whole unit.
pub proof fn lemma_compounded_grows(principal: nat, interest: nat)
    ensures
        compounded(principal, interest) >= principal,
        compounded(principal, interest) > principal <==> principal * interest >= WAD,
        compounded(0, interest) == 0,
{
    let x = principal * interest;
    let w = WAD as nat;
    assert(x / w >= 0 && (x / w > 0 <==> x >= w)) by (nonlinear_arith)
        requires
            w > 0,
            x >= 0,
    ;
    assert(0 * interest == 0) by (nonlinear_arith);
}

/// Grows `principal` by the factor `1 + interest / WAD`, rounding toward zero.
///
/// Returns `None` exactly when the grown value does not fit 64 bits.
pub fn calculate_accrued_interest(principal: u64, interest: u128) -> (r: Option<u64>)
    ensures
        r is Some <==> compounded(principal as nat, interest as nat) <= u64::MAX,
        r matches Some(v) ==> v == compounded(principal as nat, interest as nat),
{
    let product = match (principal as u128).checked_mul(interest) {
        Some(p) => p,
        None => {
            proof {
                let x = principal as nat * interest as nat;
                let w = WAD as nat;
                assert(x / w > u64::MAX) by (nonlinear_arith)
                    requires
                        x > u128::MAX,
                        w == 1_000_000_000_000_000_000,
                ;
            }
            return None;
        },
    };
    let gain: u128 = product / WAD;
    match gain.checked_add(principal as u128) {
        Some(v) => {
            if v <= u64::MAX as u128 {
                Some(v as u64)
            } else {
                None
            }
        },
        None => None,
    }
}

impl Bank {
    /// The seconds that passed on `side` up to `as_of`.
    ///
    /// Fails with `ClockSkew` exactly when `as_of` lies before the side's clock.
    pub fn elapsed(&self, side: Side, as_of: i64) -> (r: Result<u64, ErrorCode>)
        ensures
            elapsed_time(*self, side, as_of) < 0 ==> r == Err::<u64, ErrorCode>(ErrorCode::ClockSkew),
            elapsed_time(*self, side, as_of) >= 0 ==> r == Ok::<u64, ErrorCode>(
                elapsed_time(*self, side, as_of) as u64,
            ),
    {
        let since = self.side_clock(side);
        if as_of < since {
            Err(ErrorCode::ClockSkew)
        } else {
            let dt: i128 = as_of as i128 - since as i128;
            Ok(dt as u64)
        }
    }
}

/// Advances `side` of `bank` to the time `as_of`.
///
/// With `dt` the time since the side's clock: fails with `ClockSkew` when
/// `dt < 0`; does nothing when `dt == 0`; otherwise replaces the side's total
/// by `total * (1 + interest / WAD)` rounded toward zero and sets the side's
/// clock to `as_of`, or fails with `ArithmeticOverflow` when the grown total
/// does not fit 64 bits. A failure changes nothing. The side's shares, the
/// other side and the parameters are never touched. The total never shrinks,
/// and it grows as soon as the interest on it amounts to one whole unit.
pub fn accrue(bank: &mut Bank, side: Side, as_of: i64, interest: u128) -> (r: Result<(), ErrorCode>)
    ensures
        match accrued(*old(bank), side, as_of, interest) {
            Ok(b) => r is Ok && *final(bank) == b,
            Err(e) => r == Err::<(), ErrorCode>(e) && *final(bank) == *old(bank),
        },
        final(bank).shares(side) == old(bank).shares(side),
        final(bank).total(side) >= old(bank).total(side),
        r is Ok && elapsed_time(*old(bank), side, as_of) > 0 && old(bank).total(side) * interest >= WAD
            ==> final(bank).total(side) > old(bank).total(side),
        r is Ok ==> final(bank).clock(side) == as_of,
        old(bank).wf() ==> final(bank).wf(),
{
    let since = bank.side_clock(side);
    if as_of < since {
        return Err(ErrorCode::ClockSkew);
    }
    if as_of == since {
        return Ok(());
    }
    let total = bank.side_total(side);
    let shares = bank.side_shares(side);
    proof {
        lemma_compounded_grows(total as nat, interest as nat);
    }
    match calculate_accrued_interest(total, interest) {
        Some(grown) => {
            bank.set_totals(side, grown, shares);
            bank.set_clock(side, as_of);
            Ok(())
        },
        None => Err(ErrorCode::ArithmeticOverflow),
    }
}

} // verus!
