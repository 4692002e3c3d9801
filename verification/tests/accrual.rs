use lending::accrual::{accrue, calculate_accrued_interest};
use lending::instructions::{init_bank, InitBank};
use lending::{Bank, ErrorCode, Side, WAD};

fn bank() -> Bank {
    let mut bank =
        init_bank(&InitBank { signer: [9; 32], mint: [1; 32] }, [0xaa; 32], 8_000, 7_500, 1_000, 5_000, 0, 1_000)
            .unwrap();
    bank.total_deposits = 2_000;
    bank.total_deposit_shares = 1_500;
    bank.total_borrowed = 1_000;
    bank.total_borrowed_shares = 800;
    bank
}

/// The part above one of the compounding factor, as a caller computes it.
fn interest_factor(rate: f64, dt: u64) -> u128 {
    ((rate * dt as f64).exp_m1() * WAD as f64) as u128
}

#[test]
fn interest_is_added_and_rounded_toward_zero() {
    assert_eq!(calculate_accrued_interest(1_000, WAD / 20), Some(1_050));
    assert_eq!(calculate_accrued_interest(3, WAD / 2), Some(4));
    assert_eq!(calculate_accrued_interest(1, WAD - 1), Some(1));
    assert_eq!(calculate_accrued_interest(1, WAD), Some(2));
    assert_eq!(calculate_accrued_interest(0, u128::MAX), Some(0));
    assert_eq!(calculate_accrued_interest(77, 0), Some(77));
}

#[test]
fn interest_that_does_not_fit_is_refused() {
    // 18446744073709551615 * 10^-18 is 18 whole units.
    assert_eq!(calculate_accrued_interest(u64::MAX - 18, 1), Some(u64::MAX));
    assert_eq!(calculate_accrued_interest(u64::MAX - 17, 1), None);
    assert_eq!(calculate_accrued_interest(u64::MAX, WAD), None);
    assert_eq!(calculate_accrued_interest(2, u128::MAX), None);
    assert_eq!(calculate_accrued_interest(u64::MAX / 2 + 1, WAD), None);
    assert_eq!(calculate_accrued_interest(u64::MAX / 2, WAD), Some(u64::MAX - 1));
}

#[test]
fn accrual_grows_borrows_and_keeps_shares() {
    let mut bank = bank();
    let before = bank;
    let dt = bank.elapsed(Side::Borrow, 1_100).unwrap();
    assert_eq!(dt, 100);
    assert_eq!(accrue(&mut bank, Side::Borrow, 1_100, interest_factor(0.05, dt)), Ok(()));
    assert!(bank.total_borrowed > before.total_borrowed);
    // 1000 * e^5 = 148413.159...
    assert_eq!(bank.total_borrowed, 148_413);
    assert_eq!(bank.total_borrowed_shares, before.total_borrowed_shares);
    assert_eq!(bank.last_updated_borrowed, 1_100);
    // The deposit side is a clock of its own.
    assert_eq!(bank.total_deposits, before.total_deposits);
    assert_eq!(bank.total_deposit_shares, before.total_deposit_shares);
    assert_eq!(bank.last_updated, 1_000);
}

#[test]
fn accrual_of_the_deposit_side() {
    let mut bank = bank();
    assert_eq!(accrue(&mut bank, Side::Deposit, 1_001, WAD / 10), Ok(()));
    assert_eq!(bank.total_deposits, 2_200);
    assert_eq!(bank.total_deposit_shares, 1_500);
    assert_eq!(bank.last_updated, 1_001);
    assert_eq!(bank.total_borrowed, 1_000);
    assert_eq!(bank.last_updated_borrowed, 1_000);
}

#[test]
fn accrual_over_no_time_does_nothing() {
    let mut bank = bank();
    let before = bank;
    assert_eq!(accrue(&mut bank, Side::Borrow, 1_000, WAD), Ok(()));
    assert_eq!(bank, before);
    assert_eq!(bank.elapsed(Side::Borrow, 1_000), Ok(0));
}

#[test]
fn accrual_into_the_past_is_clock_skew() {
    let mut bank = bank();
    let before = bank;
    assert_eq!(accrue(&mut bank, Side::Deposit, 999, WAD), Err(ErrorCode::ClockSkew));
    assert_eq!(bank, before);
    assert_eq!(bank.elapsed(Side::Deposit, 999), Err(ErrorCode::ClockSkew));
    assert_eq!(bank.elapsed(Side::Deposit, i64::MIN), Err(ErrorCode::ClockSkew));
}

#[test]
fn elapsed_time_spans_the_whole_clock() {
    let mut bank = bank();
    bank.last_updated = i64::MIN;
    assert_eq!(bank.elapsed(Side::Deposit, i64::MAX), Ok(u64::MAX));
    assert_eq!(bank.elapsed(Side::Borrow, i64::MAX), Ok((i64::MAX - 1_000) as u64));
}

#[test]
fn accrual_that_overflows_changes_nothing() {
    let mut bank = bank();
    bank.total_borrowed = u64::MAX - 5;
    let before = bank;
    assert_eq!(accrue(&mut bank, Side::Borrow, 2_000, WAD), Err(ErrorCode::ArithmeticOverflow));
    assert_eq!(bank, before);
}

#[test]
fn accrual_of_an_empty_side_keeps_it_empty() {
    let mut bank = bank();
    bank.total_deposits = 0;
    bank.total_deposit_shares = 0;
    assert_eq!(accrue(&mut bank, Side::Deposit, 5_000, 1_000 * WAD), Ok(()));
    assert_eq!(bank.total_deposits, 0);
    assert_eq!(bank.total_deposit_shares, 0);
    assert_eq!(bank.last_updated, 5_000);
}

#[test]
fn small_interest_moves_the_clock_only() {
    let mut bank = bank();
    // 1000 * 0.0009 is less than one unit.
    assert_eq!(accrue(&mut bank, Side::Borrow, 1_001, WAD / 10_000 * 9), Ok(()));
    assert_eq!(bank.total_borrowed, 1_000);
    assert_eq!(bank.last_updated_borrowed, 1_001);
}
