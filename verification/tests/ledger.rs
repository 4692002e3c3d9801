use lending::instructions::{init_bank, init_user, InitBank, InitUser};
use lending::ledger::{
    burn_borrow, burn_deposit, mint_borrow, mint_deposit, position_value, refresh, value_of_shares,
};
use lending::math::{wide_less, wide_product, Wide};
use lending::{Bank, ErrorCode, Side, User};

const USDC: [u8; 32] = [1; 32];
const SOL: [u8; 32] = [2; 32];
const ALICE: [u8; 32] = [7; 32];
const ADMIN: [u8; 32] = [9; 32];

fn bank_of(mint: [u8; 32]) -> Bank {
    init_bank(&InitBank { signer: ADMIN, mint }, [0xcc; 32], 8_000, 7_500, 1_000, 5_000, 0, 0).unwrap()
}

fn alice() -> User {
    init_user(&InitUser { signer: ALICE }, USDC, 0)
}

fn balanced(bank: &Bank) -> bool {
    (bank.total_deposits == 0) == (bank.total_deposit_shares == 0)
        && (bank.total_borrowed == 0) == (bank.total_borrowed_shares == 0)
}

#[test]
fn first_deposit_buys_shares_one_for_one() {
    let mut bank = bank_of(USDC);
    let mut user = alice();
    assert_eq!(mint_deposit(&mut bank, &mut user, 250), Ok(250));
    assert_eq!(bank.total_deposits, 250);
    assert_eq!(bank.total_deposit_shares, 250);
    assert_eq!(user.reference.deposited_amount, 250);
    assert_eq!(user.reference.deposited_shares, 250);
    assert_eq!(user.other.deposited_amount, 0);
    assert_eq!(bank.total_borrowed, 0);
}

#[test]
fn later_deposit_buys_proportional_shares_rounded_down() {
    let mut bank = bank_of(SOL);
    bank.total_deposits = 300;
    bank.total_deposit_shares = 200;
    let mut user = alice();
    // 100 * 200 / 300 = 66.67
    assert_eq!(mint_deposit(&mut bank, &mut user, 100), Ok(66));
    assert_eq!(bank.total_deposits, 400);
    assert_eq!(bank.total_deposit_shares, 266);
    assert_eq!(user.other.deposited_amount, 100);
    assert_eq!(user.other.deposited_shares, 66);
    assert_eq!(user.reference.deposited_shares, 0);
}

#[test]
fn positions_are_filed_by_asset_class() {
    let mut usdc = bank_of(USDC);
    let mut sol = bank_of(SOL);
    let mut user = alice();
    mint_deposit(&mut usdc, &mut user, 10).unwrap();
    mint_borrow(&mut sol, &mut user, 4).unwrap();
    assert_eq!(user.reference.deposited_amount, 10);
    assert_eq!(user.reference.borrowed_amount, 0);
    assert_eq!(user.other.borrowed_amount, 4);
    assert_eq!(user.other.borrowed_shares, 4);
    assert_eq!(user.other.deposited_amount, 0);
    assert_eq!(sol.total_borrowed, 4);
    assert_eq!(sol.total_deposits, 0);
}

#[test]
fn mint_that_overflows_changes_nothing() {
    let mut bank = bank_of(USDC);
    let mut user = alice();
    mint_deposit(&mut bank, &mut user, u64::MAX).unwrap();
    let (bank_before, user_before) = (bank, user);
    assert_eq!(mint_deposit(&mut bank, &mut user, 1), Err(ErrorCode::ArithmeticOverflow));
    assert_eq!(bank, bank_before);
    assert_eq!(user, user_before);
}

#[test]
fn mint_then_burn_round_trip() {
    let mut bank = bank_of(USDC);
    bank.total_deposits = 1_000;
    bank.total_deposit_shares = 1_000;
    let mut user = alice();
    let (bank_before, user_before) = (bank, user);
    assert_eq!(mint_deposit(&mut bank, &mut user, 100), Ok(100));
    assert_eq!(burn_deposit(&mut bank, &mut user, 100), Ok(100));
    assert!(bank.total_deposits.abs_diff(bank_before.total_deposits) <= 1);
    assert!(
        user.reference.deposited_amount.abs_diff(user_before.reference.deposited_amount) <= 1
    );
    assert_eq!(bank, bank_before);
    assert_eq!(user, user_before);
}

#[test]
fn round_trip_on_an_empty_bank() {
    let mut bank = bank_of(SOL);
    let mut user = alice();
    mint_deposit(&mut bank, &mut user, 100).unwrap();
    assert_eq!(burn_deposit(&mut bank, &mut user, 100), Ok(100));
    assert_eq!(bank, bank_of(SOL));
    // The balances are back; the record made for the asset stays, empty.
    let mut expected = alice();
    expected.other_asset_id = Some(SOL);
    assert_eq!(user, expected);
}

#[test]
fn round_trip_can_fail_on_rounding() {
    // Two units in one share: three more units buy one share, worth 2.5.
    let mut bank = bank_of(USDC);
    bank.total_deposits = 2;
    bank.total_deposit_shares = 1;
    let mut user = alice();
    assert_eq!(mint_deposit(&mut bank, &mut user, 3), Ok(1));
    let (bank_before, user_before) = (bank, user);
    assert_eq!(burn_deposit(&mut bank, &mut user, 3), Err(ErrorCode::InsufficientFunds));
    assert_eq!(bank, bank_before);
    assert_eq!(user, user_before);
}

#[test]
fn burn_retires_proportional_shares() {
    let mut bank = bank_of(USDC);
    let mut user = alice();
    mint_deposit(&mut bank, &mut user, 1_000).unwrap();
    // Interest: the same shares are now worth 1500.
    bank.total_deposits = 1_500;
    user.reference.deposited_amount = 1_500;
    // 100 * 1000 / 1500 = 66.67
    assert_eq!(burn_deposit(&mut bank, &mut user, 100), Ok(66));
    assert_eq!(bank.total_deposits, 1_400);
    assert_eq!(bank.total_deposit_shares, 934);
    assert_eq!(user.reference.deposited_amount, 1_400);
    assert_eq!(user.reference.deposited_shares, 934);
}

#[test]
fn burn_of_everything_empties_both_counts() {
    let mut bank = bank_of(USDC);
    let mut user = alice();
    mint_deposit(&mut bank, &mut user, 1_000).unwrap();
    bank.total_deposits = 1_234;
    user.reference.deposited_amount = 1_234;
    assert_eq!(burn_deposit(&mut bank, &mut user, 1_234), Ok(1_000));
    assert_eq!(bank.total_deposits, 0);
    assert_eq!(bank.total_deposit_shares, 0);
    assert!(balanced(&bank));
}

#[test]
fn burn_beyond_the_position_is_insufficient_funds() {
    let mut bank = bank_of(USDC);
    let mut user = alice();
    mint_deposit(&mut bank, &mut user, 100).unwrap();
    let (bank_before, user_before) = (bank, user);
    assert_eq!(burn_deposit(&mut bank, &mut user, 101), Err(ErrorCode::InsufficientFunds));
    assert_eq!(bank, bank_before);
    assert_eq!(user, user_before);
}

#[test]
fn burn_on_an_empty_bank() {
    let mut bank = bank_of(USDC);
    let mut user = alice();
    assert_eq!(burn_deposit(&mut bank, &mut user, 1), Err(ErrorCode::InsufficientFunds));
    assert_eq!(burn_deposit(&mut bank, &mut user, 0), Err(ErrorCode::DivisionByZero));
    assert_eq!(burn_borrow(&mut bank, &mut user, 1), Err(ErrorCode::OverRepay));
    assert_eq!(burn_borrow(&mut bank, &mut user, 0), Err(ErrorCode::DivisionByZero));
    assert_eq!(bank, bank_of(USDC));
    assert_eq!(user, alice());
}

#[test]
fn burn_below_the_cached_amount_fails_instead_of_wrapping() {
    let mut bank = bank_of(USDC);
    let mut user = alice();
    mint_deposit(&mut bank, &mut user, 1_000).unwrap();
    // The shares are worth 1500, the cached amount still says 1000.
    bank.total_deposits = 1_500;
    let (bank_before, user_before) = (bank, user);
    assert_eq!(burn_deposit(&mut bank, &mut user, 1_200), Err(ErrorCode::ArithmeticOverflow));
    assert_eq!(bank, bank_before);
    assert_eq!(user, user_before);
    // After a refresh the cached amount covers it.
    refresh(&bank, &mut user, Side::Deposit).unwrap();
    assert_eq!(user.reference.deposited_amount, 1_500);
    assert_eq!(burn_deposit(&mut bank, &mut user, 1_200), Ok(800));
    assert_eq!(user.reference.deposited_amount, 300);
    assert_eq!(user.reference.deposited_shares, 200);
}

#[test]
fn burn_beyond_the_bank_total_fails_instead_of_wrapping() {
    // A position that claims more shares than the bank has issued.
    let mut bank = bank_of(USDC);
    bank.total_deposits = 10;
    bank.total_deposit_shares = 10;
    let mut user = alice();
    user.reference.deposited_shares = 50;
    user.reference.deposited_amount = 50;
    assert_eq!(burn_deposit(&mut bank, &mut user, 20), Err(ErrorCode::ArithmeticOverflow));
    assert_eq!(bank.total_deposits, 10);
    assert_eq!(user.reference.deposited_shares, 50);
}

#[test]
fn borrow_pair_mirrors_the_deposit_pair() {
    let mut bank = bank_of(SOL);
    let mut user = alice();
    assert_eq!(mint_borrow(&mut bank, &mut user, 400), Ok(400));
    bank.total_borrowed = 600;
    user.other.borrowed_amount = 600;
    // 150 * 400 / 600 = 100
    assert_eq!(burn_borrow(&mut bank, &mut user, 150), Ok(100));
    assert_eq!(bank.total_borrowed, 450);
    assert_eq!(bank.total_borrowed_shares, 300);
    assert_eq!(user.other.borrowed_amount, 450);
    assert_eq!(user.other.borrowed_shares, 300);
    assert_eq!(bank.total_deposits, 0);
    assert_eq!(user.other.deposited_shares, 0);
}

#[test]
fn repaying_more_than_owed_is_over_repay() {
    let mut bank = bank_of(SOL);
    let mut user = alice();
    mint_borrow(&mut bank, &mut user, 400).unwrap();
    let (bank_before, user_before) = (bank, user);
    assert_eq!(burn_borrow(&mut bank, &mut user, 401), Err(ErrorCode::OverRepay));
    assert_eq!(bank, bank_before);
    assert_eq!(user, user_before);
    assert_eq!(burn_borrow(&mut bank, &mut user, 400), Ok(400));
    assert!(balanced(&bank));
}

#[test]
fn shares_are_worth_their_part_of_the_total() {
    assert_eq!(value_of_shares(10, 300, 200), 15);
    assert_eq!(value_of_shares(1, 5, 2), 2);
    assert_eq!(value_of_shares(7, 100, 0), 0);
    assert_eq!(value_of_shares(u64::MAX, u64::MAX, 1), u64::MAX as u128 * u64::MAX as u128);
    let mut bank = bank_of(SOL);
    bank.total_borrowed = 300;
    bank.total_borrowed_shares = 200;
    let mut user = alice();
    user.other_asset_id = Some(SOL);
    user.other.borrowed_shares = 10;
    user.reference.borrowed_shares = 99;
    assert_eq!(position_value(&bank, &user, Side::Borrow), 15);
    assert_eq!(position_value(&bank, &user, Side::Deposit), 0);
}

#[test]
fn refresh_sets_the_cached_amount_and_clock() {
    let mut bank = bank_of(USDC);
    bank.total_deposits = 1_100;
    bank.total_deposit_shares = 1_000;
    bank.last_updated = 77;
    let mut user = alice();
    user.reference.deposited_shares = 500;
    user.reference.deposited_amount = 500;
    assert_eq!(refresh(&bank, &mut user, Side::Deposit), Ok(()));
    assert_eq!(user.reference.deposited_amount, 550);
    assert_eq!(user.reference.deposited_shares, 500);
    assert_eq!(user.last_updated, 77);
    assert_eq!(user.last_updated_borrowed, 0);
}

#[test]
fn refresh_that_overflows_changes_nothing() {
    let mut bank = bank_of(USDC);
    bank.total_deposits = u64::MAX;
    bank.total_deposit_shares = 1;
    let mut user = alice();
    user.reference.deposited_shares = 2;
    let before = user;
    assert_eq!(refresh(&bank, &mut user, Side::Deposit), Err(ErrorCode::ArithmeticOverflow));
    assert_eq!(user, before);
}

#[test]
fn shares_and_totals_vanish_together() {
    let mut bank = bank_of(USDC);
    let mut user = alice();
    assert!(balanced(&bank));
    for amount in [0u64, 1, 3, 1_000, 7] {
        mint_deposit(&mut bank, &mut user, amount).unwrap();
        assert!(balanced(&bank));
        mint_borrow(&mut bank, &mut user, amount).unwrap();
        assert!(balanced(&bank));
    }
    for amount in [5u64, 1, 1_000, 5] {
        burn_deposit(&mut bank, &mut user, amount).unwrap();
        assert!(balanced(&bank));
        burn_borrow(&mut bank, &mut user, amount).unwrap();
        assert!(balanced(&bank));
    }
    assert_eq!(bank.total_deposits, 0);
    assert_eq!(bank.total_borrowed_shares, 0);
}

#[test]
fn minting_and_burning_move_the_share_value_by_rounding_only() {
    let mut bank = bank_of(USDC);
    bank.total_deposits = 1_003;
    bank.total_deposit_shares = 997;
    let mut user = alice();
    for amount in [1u64, 7, 250, 999, 12_345] {
        let (total, shares) = (bank.total_deposits as u128, bank.total_deposit_shares as u128);
        mint_deposit(&mut bank, &mut user, amount).unwrap();
        let (total2, shares2) = (bank.total_deposits as u128, bank.total_deposit_shares as u128);
        assert!(total * shares2 <= total2 * shares);
        assert!(total2 * shares < total * shares2 + total);
    }
    for amount in [3u64, 100, 5_000] {
        let (total, shares) = (bank.total_deposits as u128, bank.total_deposit_shares as u128);
        burn_deposit(&mut bank, &mut user, amount).unwrap();
        let (total2, shares2) = (bank.total_deposits as u128, bank.total_deposit_shares as u128);
        assert!(total2 * shares <= total * shares2);
        assert!(total * shares2 < total2 * shares + total);
    }
}

#[test]
fn wide_products_are_exact() {
    let full = wide_product(u128::MAX, u64::MAX);
    // (2^128 - 1) * (2^64 - 1) = 2^192 - 2^128 - 2^64 + 1
    assert_eq!(full, Wide { high: (1u128 << 64) - 2, low: u128::MAX - (1u128 << 64) + 2 });
    assert_eq!(wide_product(0, u64::MAX), Wide { high: 0, low: 0 });
    assert_eq!(wide_product(7, 6), Wide { high: 0, low: 42 });
    assert_eq!(wide_product(1 << 127, 2), Wide { high: 1, low: 0 });
    assert!(wide_less(Wide { high: 0, low: u128::MAX }, Wide { high: 1, low: 0 }));
    assert!(!wide_less(Wide { high: 1, low: 0 }, Wide { high: 0, low: u128::MAX }));
    assert!(!wide_less(Wide { high: 3, low: 9 }, Wide { high: 3, low: 9 }));
    assert!(wide_less(Wide { high: 3, low: 8 }, Wide { high: 3, low: 9 }));
}

const BTC: [u8; 32] = [3; 32];

#[test]
fn balances_are_kept_per_asset() {
    let mut sol = bank_of(SOL);
    let mut btc = bank_of(BTC);
    btc.total_deposits = 1_000;
    btc.total_deposit_shares = 1_000;
    btc.total_borrowed = 1_000;
    btc.total_borrowed_shares = 1_000;
    let mut user = alice();
    mint_deposit(&mut sol, &mut user, 100).unwrap();
    mint_borrow(&mut sol, &mut user, 40).unwrap();
    assert_eq!(user.other_asset_id, Some(SOL));
    let (btc_before, user_before) = (btc, user);
    // Nothing is held or owed in the third asset.
    assert_eq!(user.held(&BTC), alice().reference);
    assert_eq!(position_value(&btc, &user, Side::Deposit), 0);
    assert_eq!(burn_deposit(&mut btc, &mut user, 100), Err(ErrorCode::InsufficientFunds));
    assert_eq!(burn_borrow(&mut btc, &mut user, 40), Err(ErrorCode::OverRepay));
    // And nothing can be filed in it.
    assert_eq!(mint_deposit(&mut btc, &mut user, 5), Err(ErrorCode::UnsupportedAsset));
    assert_eq!(mint_borrow(&mut btc, &mut user, 5), Err(ErrorCode::UnsupportedAsset));
    assert_eq!(mint_deposit(&mut btc, &mut user, 0), Err(ErrorCode::UnsupportedAsset));
    assert_eq!(btc, btc_before);
    assert_eq!(user, user_before);
    // Taking nothing changes nothing.
    assert_eq!(burn_deposit(&mut btc, &mut user, 0), Ok(0));
    assert_eq!(refresh(&btc, &mut user, Side::Deposit), Ok(()));
    assert_eq!(user.other, user_before.other);
    assert_eq!(user.reference, user_before.reference);
    assert_eq!(user.held(&SOL).deposited_amount, 100);
    assert_eq!(user.held(&SOL).borrowed_amount, 40);
    assert_eq!(user.held(&USDC), alice().reference);
}

#[test]
fn the_second_record_goes_to_the_first_other_asset() {
    let mut user = alice();
    assert_eq!(user.asset_class(&USDC), Some(lending::AssetClass::Reference));
    assert_eq!(user.asset_class(&SOL), None);
    assert_eq!(user.file(&USDC), Ok(()));
    assert_eq!(user.other_asset_id, None);
    assert_eq!(user.file(&BTC), Ok(()));
    assert_eq!(user.other_asset_id, Some(BTC));
    assert_eq!(user.asset_class(&BTC), Some(lending::AssetClass::Other));
    assert_eq!(user.file(&BTC), Ok(()));
    assert_eq!(user.file(&SOL), Err(ErrorCode::UnsupportedAsset));
    assert_eq!(user.other_asset_id, Some(BTC));
}
