//! The share ledger: conversion between amounts and proportional shares.
//!
//! A bank issues shares against the funds booked on a side. An amount buys
//! `amount * shares / total` shares, rounded down, and the first amount booked
//! on an empty side buys shares one for one. What a holder's shares are worth
//! is `held * total / shares`, so every holder's part grows with the total.
//!
//! A user's balances are kept per asset: every function here reads and
//! changes the user's record of the bank's own asset and no other.

use vstd::prelude::*;
use crate::error::ErrorCode;
use crate::math::{
    lemma_mul_div_at_least, lemma_mul_div_at_most, lemma_mul_div_below, lemma_mul_div_reaches,
    mul_div, mul_div_floor,
};
use crate::state::{Bank, Side, User};

verus! {

/// The shares that `amount` buys on a side holding `total` funds in `shares` shares.
pub open spec fn minted_shares(amount: nat, total: nat, shares: nat) -> nat {
    if total == 0 {
        amount
    } else {
        mul_div(amount, shares, total)
    }
}

/// The shares that stand for `amount` on a side holding `total` funds in `shares` shares.
pub open spec fn burned_shares(amount: nat, total: nat, shares: nat) -> nat
    recommends
        total > 0,
{
    mul_div(amount, shares, total)
}

/// What `held` shares are worth on a side holding `total` funds in `shares`
/// shares, in whole units. Shares of a side that issued none are worth nothing.
pub open spec fn share_value(held: nat, total: nat, shares: nat) -> nat {
    if shares == 0 {
        0
    } else {
        mul_div(held, total, shares)
    }
}

/// What the user's shares on `side` of `bank` are worth at the bank's current totals.
pub open spec fn owned_value(bank: Bank, user: User, side: Side) -> nat {
    share_value(
        user.holding(bank.asset_id).shares(side) as nat,
        bank.total(side) as nat,
        bank.shares(side) as nat,
    )
}

/// The error that reports a burn larger than the position's value.
pub open spec fn shortfall(side: Side) -> ErrorCode {
    match side {
        Side::Deposit => ErrorCode::InsufficientFunds,
        Side::Borrow => ErrorCode::OverRepay,
    }
}

/// `bank` after `amount` and `shares` were added to `side`.
pub open spec fn bank_credited(bank: Bank, side: Side, amount: nat, shares: nat) -> Bank {
    bank.with_totals(side, (bank.total(side) + amount) as u64, (bank.shares(side) + shares) as u64)
}

/// `bank` after `amount` and `shares` were taken from `side`.
pub open spec fn bank_debited(bank: Bank, side: Side, amount: nat, shares: nat) -> Bank {
    bank.with_totals(side, (bank.total(side) - amount) as u64, (bank.shares(side) - shares) as u64)
}

/// `user` after `amount` and `shares` were added to `side` of the record of
/// the asset `asset_id`, for which room is made first.
pub open spec fn user_credited(user: User, asset_id: [u8; 32], side: Side, amount: nat, shares: nat) -> User {
    let held = user.holding(asset_id);
    user.filing(asset_id).with_holding(
        asset_id,
        held.with_balance(side, (held.amount(side) + amount) as u64, (held.shares(side) + shares) as u64),
    )
}

/// `user` after `amount` and `shares` were taken from `side` of the record
/// of the asset `asset_id`.
pub open spec fn user_debited(user: User, asset_id: [u8; 32], side: Side, amount: nat, shares: nat) -> User {
    let held = user.holding(asset_id);
    user.with_holding(
        asset_id,
        held.with_balance(side, (held.amount(side) - amount) as u64, (held.shares(side) - shares) as u64),
    )
}

/// Whether booking `amount` on `side` keeps all four balances within 64 bits.
pub open spec fn mint_fits(bank: Bank, user: User, side: Side, amount: u64) -> bool {
    let minted = minted_shares(amount as nat, bank.total(side) as nat, bank.shares(side) as nat);
    let held = user.holding(bank.asset_id);
    &&& bank.total(side) + amount <= u64::MAX
    &&& bank.shares(side) + minted <= u64::MAX
    &&& held.amount(side) + amount <= u64::MAX
    &&& held.shares(side) + minted <= u64::MAX
}

/// Why taking `amount` from `side` is refused, if it is. The checks come in
/// this order: the position must be worth the amount; the side must hold
/// funds to price a share with; neither the bank's total nor the user's
/// cached amount may go negative.
pub open spec fn burn_refusal(bank: Bank, user: User, side: Side, amount: u64) -> Option<ErrorCode> {
    let held = user.holding(bank.asset_id);
    if owned_value(bank, user, side) < amount {
        Some(shortfall(side))
    } else if bank.total(side) == 0 {
        Some(ErrorCode::DivisionByZero)
    } else if amount > bank.total(side) || amount > held.amount(side) {
        Some(ErrorCode::ArithmeticOverflow)
    } else {
        None
    }
}

/// The outcome of booking `amount` on `side`: the new bank and user, or the
/// error that leaves both as they were. A position that cannot file the
/// bank's asset is refused before anything else is looked at.
pub open spec fn after_mint(bank: Bank, user: User, side: Side, amount: u64) -> Result<(Bank, User), ErrorCode> {
    let minted = minted_shares(amount as nat, bank.total(side) as nat, bank.shares(side) as nat);
    if !user.can_file(bank.asset_id) {
        Err(ErrorCode::UnsupportedAsset)
    } else if mint_fits(bank, user, side, amount) {
        Ok(
            (
                bank_credited(bank, side, amount as nat, minted),
                user_credited(user, bank.asset_id, side, amount as nat, minted),
            ),
        )
    } else {
        Err(ErrorCode::ArithmeticOverflow)
    }
}

/// The outcome of taking `amount` from `side`: the new bank and user, or the
/// error that leaves both as they were.
pub open spec fn after_burn(bank: Bank, user: User, side: Side, amount: u64) -> Result<(Bank, User), ErrorCode> {
    let burned = burned_shares(amount as nat, bank.total(side) as nat, bank.shares(side) as nat);
    match burn_refusal(bank, user, side, amount) {
        Some(e) => Err(e),
        None => Ok(
            (
                bank_debited(bank, side, amount as nat, burned),
                user_debited(user, bank.asset_id, side, amount as nat, burned),
            ),
        ),
    }
}

/// The outcome of refreshing the user's cached amount on `side` of `bank`:
/// the amount becomes what the user's shares are worth at the bank's current
/// totals, and the user's clock of that side becomes the bank's. Fails when
/// that worth does not fit 64 bits.
pub open spec fn refreshed(bank: Bank, user: User, side: Side) -> Result<User, ErrorCode> {
    let held = user.holding(bank.asset_id);
    if owned_value(bank, user, side) > u64::MAX {
        Err(ErrorCode::ArithmeticOverflow)
    } else {
        Ok(
            user.with_holding(
                bank.asset_id,
                held.with_balance(side, owned_value(bank, user, side) as u64, held.shares(side)),
            ).with_clock(side, bank.clock(side)),
        )
    }
}

/// The user with a cached amount on `side` that can be drawn on for
/// `amount`: the user as it is where the cached amount covers `amount`, else
/// the user refreshed. A cache that lags behind the shares' worth is thus
/// brought up to date only when it would stand in the way.
pub open spec fn covering(bank: Bank, user: User, side: Side, amount: u64) -> Result<User, ErrorCode> {
    if user.holding(bank.asset_id).amount(side) >= amount {
        Ok(user)
    } else {
        refreshed(bank, user, side)
    }
}

/// The outcome of an operation that books `amount` on `side`: the amount and
/// the shares it buys are added to bank and user, and the user's clock of
/// that side becomes the bank's.
pub open spec fn after_credit(bank: Bank, user: User, side: Side, amount: u64) -> Result<(Bank, User), ErrorCode> {
    match after_mint(bank, user, side, amount) {
        Err(e) => Err(e),
        Ok((b, u)) => Ok((b, u.with_clock(side, bank.clock(side)))),
    }
}

/// The outcome of an operation that takes `amount` from `side`: the amount
/// and the shares that stand for it are taken from bank and user, after the
/// user's cached amount was made to cover it (see [`covering`]), and the
/// user's clock of that side becomes the bank's.
pub open spec fn after_debit(bank: Bank, user: User, side: Side, amount: u64) -> Result<(Bank, User), ErrorCode> {
    match covering(bank, user, side, amount) {
        Err(e) => Err(e),
        Ok(covered) => match after_burn(bank, covered, side, amount) {
            Err(e) => Err(e),
            Ok((b, u)) => Ok((b, u.with_clock(side, bank.clock(side)))),
        },
    }
}

/// Computes what `held` shares are worth on a side with the given totals.
pub fn value_of_shares(held: u64, total: u64, shares: u64) -> (value: u128)
    ensures
        value == share_value(held as nat, total as nat, shares as nat),
{
    if shares == 0 {
        0
    } else {
        mul_div_floor(held, total, shares)
    }
}

/// Computes what the user's shares on `side` of `bank` are worth.
pub fn position_value(bank: &Bank, user: &User, side: Side) -> (value: u128)
    ensures
        value == owned_value(*bank, *user, side),
{
    let held = user.held(&bank.asset_id);
    value_of_shares(held.side_shares(side), bank.side_total(side), bank.side_shares(side))
}

/// Brings the user's cached amount on `side` of `bank` up to date: it becomes
/// `held_shares * total / shares` of that side, rounded down (zero on a side
/// without shares), and the user's clock of that side becomes the bank's.
///
/// Fails with `ArithmeticOverflow`, changing nothing, exactly when that worth
/// does not fit 64 bits. The user's shares never change.
pub fn refresh(bank: &Bank, user: &mut User, side: Side) -> (r: Result<(), ErrorCode>)
    ensures
        match refreshed(*bank, *old(user), side) {
            Ok(u) => r is Ok && *final(user) == u,
            Err(e) => r == Err::<(), ErrorCode>(e) && *final(user) == *old(user),
        },
        r is Ok ==> owned_value(*bank, *final(user), side) == owned_value(*bank, *old(user), side),
        r is Ok ==> final(user).holding(bank.asset_id).amount(side)
            == owned_value(*bank, *old(user), side),
        forall|other: [u8; 32]|
            other@ != bank.asset_id@ ==> #[trigger] final(user).holding(other) == old(user).holding(other),
        old(user).wf() ==> final(user).wf(),
{
    let mut held = user.held(&bank.asset_id);
    let value = value_of_shares(held.side_shares(side), bank.side_total(side), bank.side_shares(side));
    if value > u64::MAX as u128 {
        return Err(ErrorCode::ArithmeticOverflow);
    }
    held.set_balance(side, value as u64, held.side_shares(side));
    user.set_holding(&bank.asset_id, held);
    user.set_clock(side, bank.side_clock(side));
    Ok(())
}

/// Books `amount` on `side` of `bank` for `user` and issues the shares it buys.
///
/// Fails with `UnsupportedAsset` when the user's position cannot file the
/// bank's asset, else with `ArithmeticOverflow` when one of the four balances
/// it raises would leave 64 bits; succeeds otherwise and returns the number
/// of shares issued. A failure changes nothing. Only the user's record of
/// the bank's asset changes.
pub fn mint(bank: &mut Bank, user: &mut User, side: Side, amount: u64) -> (r: Result<u64, ErrorCode>)
    ensures
        match after_mint(*old(bank), *old(user), side, amount) {
            Ok((b, u)) => r is Ok && *final(bank) == b && *final(user) == u,
            Err(e) => r == Err::<u64, ErrorCode>(e) && *final(bank) == *old(bank) && *final(user) == *old(
                user,
            ),
        },
        r matches Ok(minted) ==> minted == minted_shares(
            amount as nat,
            old(bank).total(side) as nat,
            old(bank).shares(side) as nat,
        ),
        forall|other: [u8; 32]|
            other@ != old(bank).asset_id@ ==> #[trigger] final(user).holding(other) == old(user).holding(other),
        old(user).wf() ==> final(user).wf(),
        old(bank).wf() ==> final(bank).wf(),
{
    let mut filed = *user;
    match filed.file(&bank.asset_id) {
        Ok(()) => {},
        Err(e) => {
            return Err(e);
        },
    }
    let mut held = filed.held(&bank.asset_id);
    let total = bank.side_total(side);
    let shares = bank.side_shares(side);
    let bought: u128 = if total == 0 {
        amount as u128
    } else {
        mul_div_floor(amount, shares, total)
    };
    if bought > u64::MAX as u128 {
        return Err(ErrorCode::ArithmeticOverflow);
    }
    let minted: u64 = bought as u64;
    let new_total = match total.checked_add(amount) {
        Some(v) => v,
        None => {
            return Err(ErrorCode::ArithmeticOverflow);
        },
    };
    let new_shares = match shares.checked_add(minted) {
        Some(v) => v,
        None => {
            return Err(ErrorCode::ArithmeticOverflow);
        },
    };
    let new_amount = match held.side_amount(side).checked_add(amount) {
        Some(v) => v,
        None => {
            return Err(ErrorCode::ArithmeticOverflow);
        },
    };
    let new_held = match held.side_shares(side).checked_add(minted) {
        Some(v) => v,
        None => {
            return Err(ErrorCode::ArithmeticOverflow);
        },
    };
    bank.set_totals(side, new_total, new_shares);
    held.set_balance(side, new_amount, new_held);
    filed.set_holding(&bank.asset_id, held);
    *user = filed;
    Ok(minted)
}

/// Takes `amount` from `side` of `bank` for `user` and retires the shares that
/// stand for it.
///
/// Succeeds exactly when [`burn_refusal`] names no error, and then returns the
/// number of shares retired. Otherwise it returns that error and nothing changes.
pub fn burn(bank: &mut Bank, user: &mut User, side: Side, amount: u64) -> (r: Result<u64, ErrorCode>)
    ensures
        match after_burn(*old(bank), *old(user), side, amount) {
            Ok((b, u)) => r is Ok && *final(bank) == b && *final(user) == u,
            Err(e) => r == Err::<u64, ErrorCode>(e) && *final(bank) == *old(bank) && *final(user) == *old(
                user,
            ),
        },
        r matches Ok(burned) ==> {
            &&& burned == burned_shares(
                amount as nat,
                old(bank).total(side) as nat,
                old(bank).shares(side) as nat,
            )
            &&& burned <= old(bank).shares(side)
            &&& burned <= old(user).holding(old(bank).asset_id).shares(side)
        },
        forall|other: [u8; 32]|
            other@ != old(bank).asset_id@ ==> #[trigger] final(user).holding(other) == old(user).holding(other),
        old(user).wf() ==> final(user).wf(),
        old(bank).wf() ==> final(bank).wf(),
{
    let mut held = user.held(&bank.asset_id);
    let total = bank.side_total(side);
    let shares = bank.side_shares(side);
    let held_shares = held.side_shares(side);
    let held_amount = held.side_amount(side);
    let value = value_of_shares(held_shares, total, shares);
    if value < amount as u128 {
        return Err(
            match side {
                Side::Deposit => ErrorCode::InsufficientFunds,
                Side::Borrow => ErrorCode::OverRepay,
            },
        );
    }
    if total == 0 {
        return Err(ErrorCode::DivisionByZero);
    }
    if amount > total || amount > held_amount {
        return Err(ErrorCode::ArithmeticOverflow);
    }
    let retired: u128 = mul_div_floor(amount, shares, total);
    proof {
        lemma_burn_bounds(amount as nat, total as nat, shares as nat, held_shares as nat);
    }
    let burned: u64 = retired as u64;
    bank.set_totals(side, total - amount, shares - burned);
    held.set_balance(side, held_amount - amount, held_shares - burned);
    user.set_holding(&bank.asset_id, held);
    Ok(burned)
}

/// Books `amount` on `side` of `bank` for `user`, as an operation does: mints
/// as [`mint`] does and sets the user's clock of that side to the bank's.
///
/// On success the bank's total and the user's cached amount have grown by
/// exactly `amount`, and the bank's and the user's shares by the shares
/// returned. Fails as `mint` does and then changes nothing.
pub fn credit(bank: &mut Bank, user: &mut User, side: Side, amount: u64) -> (r: Result<u64, ErrorCode>)
    ensures
        match after_credit(*old(bank), *old(user), side, amount) {
            Ok((b, u)) => r is Ok && *final(bank) == b && *final(user) == u,
            Err(e) => r == Err::<u64, ErrorCode>(e) && *final(bank) == *old(bank) && *final(user) == *old(
                user,
            ),
        },
        r matches Ok(minted) ==> {
            let asset = old(bank).asset_id;
            &&& minted == minted_shares(
                amount as nat,
                old(bank).total(side) as nat,
                old(bank).shares(side) as nat,
            )
            &&& final(bank).total(side) == old(bank).total(side) + amount
            &&& final(bank).shares(side) == old(bank).shares(side) + minted
            &&& final(user).holding(asset).amount(side) == old(user).holding(asset).amount(side) + amount
            &&& final(user).holding(asset).shares(side) == old(user).holding(asset).shares(side) + minted
        },
        forall|other: [u8; 32]|
            other@ != old(bank).asset_id@ ==> #[trigger] final(user).holding(other) == old(user).holding(other),
        old(user).wf() ==> final(user).wf(),
        old(bank).wf() ==> final(bank).wf(),
{
    let mut b = *bank;
    let mut u = *user;
    let minted = match mint(&mut b, &mut u, side, amount) {
        Ok(m) => m,
        Err(e) => {
            return Err(e);
        },
    };
    u.set_clock(side, bank.side_clock(side));
    *bank = b;
    *user = u;
    Ok(minted)
}

/// Takes `amount` from `side` of `bank` for `user`, as an operation does:
/// refreshes the user's cached amount if it does not cover `amount`, burns
/// as [`burn`] does and sets the user's clock of that side to the bank's.
///
/// Succeeds when the user's shares are worth `amount` (and the bank holds
/// it), whatever the cached amount says. On success the bank's total has
/// shrunk by exactly `amount`; the user's cached amount is the previous one
/// less `amount` where that covered it, else what the shares were worth less
/// `amount`. Fails, changing nothing, with the first error of the refresh
/// (`ArithmeticOverflow`) or of `burn`.
pub fn debit(bank: &mut Bank, user: &mut User, side: Side, amount: u64) -> (r: Result<u64, ErrorCode>)
    ensures
        match after_debit(*old(bank), *old(user), side, amount) {
            Ok((b, u)) => r is Ok && *final(bank) == b && *final(user) == u,
            Err(e) => r == Err::<u64, ErrorCode>(e) && *final(bank) == *old(bank) && *final(user) == *old(
                user,
            ),
        },
        r matches Ok(burned) ==> {
            let asset = old(bank).asset_id;
            &&& burned == burned_shares(
                amount as nat,
                old(bank).total(side) as nat,
                old(bank).shares(side) as nat,
            )
            &&& amount <= owned_value(*old(bank), *old(user), side)
            &&& final(bank).total(side) == old(bank).total(side) - amount
            &&& final(bank).shares(side) == old(bank).shares(side) - burned
            &&& final(user).holding(asset).shares(side) == old(user).holding(asset).shares(side) - burned
            &&& old(user).holding(asset).amount(side) >= amount ==> final(user).holding(asset).amount(side)
                == old(user).holding(asset).amount(side) - amount
            &&& old(user).holding(asset).amount(side) < amount ==> final(user).holding(asset).amount(side)
                == owned_value(*old(bank), *old(user), side) - amount
        },
        forall|other: [u8; 32]|
            other@ != old(bank).asset_id@ ==> #[trigger] final(user).holding(other) == old(user).holding(other),
        owned_value(*old(bank), *old(user), side) < amount ==> r == Err::<u64, ErrorCode>(shortfall(side)),
        old(user).wf() ==> final(user).wf(),
        old(bank).wf() ==> final(bank).wf(),
{
    let mut b = *bank;
    let mut u = *user;
    if u.held(&b.asset_id).side_amount(side) < amount {
        match refresh(&b, &mut u, side) {
            Ok(()) => {},
            Err(e) => {
                return Err(e);
            },
        }
    }
    let burned = match burn(&mut b, &mut u, side, amount) {
        Ok(v) => v,
        Err(e) => {
            return Err(e);
        },
    };
    u.set_clock(side, bank.side_clock(side));
    *bank = b;
    *user = u;
    Ok(burned)
}

/// The shares retired by a burn that passed its checks are covered by the
/// holder's shares and by the side's shares, and they exhaust the side's
/// shares exactly when the amount exhausts its total.
pub proof fn lemma_burn_bounds(amount: nat, total: nat, shares: nat, held: nat)
    requires
        0 < total,
        amount <= total,
        share_value(held, total, shares) >= amount,
    ensures
        burned_shares(amount, total, shares) <= held,
        burned_shares(amount, total, shares) <= shares,
        amount == total ==> burned_shares(amount, total, shares) == shares,
        amount < total && shares > 0 ==> burned_shares(amount, total, shares) < shares,
{
    if shares == 0 {
        assert(amount * shares == 0) by (nonlinear_arith)
            requires
                shares == 0,
        ;
        assert(0nat / total == 0) by (nonlinear_arith)
            requires
                total > 0,
        ;
    } else {
        lemma_mul_div_reaches(held, total, shares, amount);
        assert(amount * shares <= held * total) by (nonlinear_arith)
            requires
                held * total >= amount * shares,
        ;
        lemma_mul_div_at_most(amount, shares, total, held);
        assert(amount * shares <= shares * total) by (nonlinear_arith)
            requires
                amount <= total,
        ;
        lemma_mul_div_at_most(amount, shares, total, shares);
        if amount == total {
            assert(amount * shares >= shares * total) by (nonlinear_arith)
                requires
                    amount == total,
            ;
            lemma_mul_div_at_least(amount, shares, total, shares);
        } else {
            assert(amount * shares < shares * total) by (nonlinear_arith)
                requires
                    amount < total,
                    shares > 0,
            ;
            lemma_mul_div_below(amount, shares, total, shares);
        }
    }
}

/// Credits a deposit of `amount` to `user` in `bank` and returns the shares
/// issued: `amount` itself on an empty bank, else
/// `amount * total_deposit_shares / total_deposits`, rounded down.
///
/// Fails with `ArithmeticOverflow`, changing nothing, exactly when one of the
/// four balances it raises would leave 64 bits.
pub fn mint_deposit(bank: &mut Bank, user: &mut User, amount: u64) -> (r: Result<u64, ErrorCode>)
    ensures
        match after_mint(*old(bank), *old(user), Side::Deposit, amount) {
            Ok((b, u)) => r is Ok && *final(bank) == b && *final(user) == u,
            Err(e) => r == Err::<u64, ErrorCode>(e) && *final(bank) == *old(bank) && *final(user) == *old(
                user,
            ),
        },
        r matches Ok(minted) ==> minted == minted_shares(
            amount as nat,
            old(bank).total_deposits as nat,
            old(bank).total_deposit_shares as nat,
        ),
        forall|other: [u8; 32]|
            other@ != old(bank).asset_id@ ==> #[trigger] final(user).holding(other) == old(user).holding(other),
        old(user).wf() ==> final(user).wf(),
        old(bank).wf() ==> final(bank).wf(),
{
    mint(bank, user, Side::Deposit, amount)
}

/// Books a loan of `amount` against `user` in `bank` and returns the debt
/// shares issued: `amount` itself on a bank without loans, else
/// `amount * total_borrowed_shares / total_borrowed`, rounded down.
///
/// Fails with `ArithmeticOverflow`, changing nothing, exactly when one of the
/// four balances it raises would leave 64 bits.
pub fn mint_borrow(bank: &mut Bank, user: &mut User, amount: u64) -> (r: Result<u64, ErrorCode>)
    ensures
        match after_mint(*old(bank), *old(user), Side::Borrow, amount) {
            Ok((b, u)) => r is Ok && *final(bank) == b && *final(user) == u,
            Err(e) => r == Err::<u64, ErrorCode>(e) && *final(bank) == *old(bank) && *final(user) == *old(
                user,
            ),
        },
        r matches Ok(minted) ==> minted == minted_shares(
            amount as nat,
            old(bank).total_borrowed as nat,
            old(bank).total_borrowed_shares as nat,
        ),
        forall|other: [u8; 32]|
            other@ != old(bank).asset_id@ ==> #[trigger] final(user).holding(other) == old(user).holding(other),
        old(user).wf() ==> final(user).wf(),
        old(bank).wf() ==> final(bank).wf(),
{
    mint(bank, user, Side::Borrow, amount)
}

/// Takes `amount` out of the deposit of `user` in `bank` and returns the
/// shares retired, `amount * total_deposit_shares / total_deposits` rounded down.
///
/// Fails, changing nothing, with `InsufficientFunds` when the user's shares
/// are worth less than `amount`; else with `DivisionByZero` when the bank
/// holds no deposits; else with `ArithmeticOverflow` when `amount` exceeds the
/// bank's deposits or the user's cached deposit.
pub fn burn_deposit(bank: &mut Bank, user: &mut User, amount: u64) -> (r: Result<u64, ErrorCode>)
    ensures
        match after_burn(*old(bank), *old(user), Side::Deposit, amount) {
            Ok((b, u)) => r is Ok && *final(bank) == b && *final(user) == u,
            Err(e) => r == Err::<u64, ErrorCode>(e) && *final(bank) == *old(bank) && *final(user) == *old(
                user,
            ),
        },
        r matches Ok(burned) ==> burned == burned_shares(
            amount as nat,
            old(bank).total_deposits as nat,
            old(bank).total_deposit_shares as nat,
        ),
        forall|other: [u8; 32]|
            other@ != old(bank).asset_id@ ==> #[trigger] final(user).holding(other) == old(user).holding(other),
        old(user).wf() ==> final(user).wf(),
        old(bank).wf() ==> final(bank).wf(),
{
    burn(bank, user, Side::Deposit, amount)
}

/// Takes `amount` off the debt of `user` in `bank` and returns the debt shares
/// retired, `amount * total_borrowed_shares / total_borrowed` rounded down.
///
/// Fails, changing nothing, with `OverRepay` when the user owes less than
/// `amount`; else with `DivisionByZero` when the bank has no loans; else with
/// `ArithmeticOverflow` when `amount` exceeds the bank's loans or the user's
/// cached debt.
pub fn burn_borrow(bank: &mut Bank, user: &mut User, amount: u64) -> (r: Result<u64, ErrorCode>)
    ensures
        match after_burn(*old(bank), *old(user), Side::Borrow, amount) {
            Ok((b, u)) => r is Ok && *final(bank) == b && *final(user) == u,
            Err(e) => r == Err::<u64, ErrorCode>(e) && *final(bank) == *old(bank) && *final(user) == *old(
                user,
            ),
        },
        r matches Ok(burned) ==> burned == burned_shares(
            amount as nat,
            old(bank).total_borrowed as nat,
            old(bank).total_borrowed_shares as nat,
        ),
        forall|other: [u8; 32]|
            other@ != old(bank).asset_id@ ==> #[trigger] final(user).holding(other) == old(user).holding(other),
        old(user).wf() ==> final(user).wf(),
        old(bank).wf() ==> final(bank).wf(),
{
    burn(bank, user, Side::Borrow, amount)
}

} // verus!
