//! The price oracle as the ledger sees it.
//!
//! Prices come from Pyth price updates. A [`PriceUpdate`] holds, as plain
//! values, what a posted update says; the Pyth receiver SDK decides whether it
//! may be used: it must be fully verified, belong to the feed asked for and be
//! no older than the allowed age.

use vstd::prelude::*;
use vstd::string::StringSliceAdditionalSpecFns;
use anchor_lang::prelude::{Clock, Pubkey};
use pyth_solana_receiver_sdk::price_update::{PriceFeedMessage, PriceUpdateV2, VerificationLevel};
use crate::error::ErrorCode;

verus! {

/// The SDK's error number for a price older than the allowed age.
pub const PRICE_TOO_OLD: u32 = 10000;

/// The SDK's error number for a price of another feed.
pub const MISMATCHED_FEED_ID: u32 = 10002;

/// The SDK's error number for a price without full verification.
pub const INSUFFICIENT_VERIFICATION_LEVEL: u32 = 10003;

/// The SDK's error number for a feed identifier of the wrong length.
pub const FEED_ID_MUST_BE_32_BYTES: u32 = 10004;

/// The SDK's error number for a feed identifier with a character that is no hex digit.
pub const FEED_ID_NON_HEX_CHARACTER: u32 = 10005;

/// How far the guardians' signatures on a price update were checked.
#[derive(Clone, Copy, Debug, PartialEq, Eq, Structural)]
pub enum Verification {
    Partial { num_signatures: u8 },
    Full,
}

/// A posted price update: the price is `price * 10^exponent`, give or take
/// `conf`, as published at `publish_time` for the feed `feed_id`.
#[derive(Clone, Copy, Debug, PartialEq, Eq)]
pub struct PriceUpdate {
    pub feed_id: [u8; 32],
    pub price: i64,
    pub conf: u64,
    pub exponent: i32,
    pub publish_time: i64,
    pub verification: Verification,
}

/// A usable price with its confidence interval.
#[derive(Clone, Copy, Debug, PartialEq, Eq, Structural)]
pub struct Quote {
    pub price: u64,
    pub confidence: u64,
}

/// What the SDK answers when asked for the price in `update`, for the feed
/// `wanted`, no older than `max_age` at the time `as_of`: the price and its
/// confidence, or the number of the SDK's error.
pub open spec fn sdk_price(update: PriceUpdate, as_of: i64, max_age: u64, wanted: [u8; 32]) -> Result<(i64, u64), u32> {
    if !(update.verification is Full) {
        Err(INSUFFICIENT_VERIFICATION_LEVEL)
    } else if update.feed_id@ != wanted@ {
        Err(MISMATCHED_FEED_ID)
    } else if update.publish_time + max_age < as_of {
        Err(PRICE_TOO_OLD)
    } else {
        Ok((update.price, update.conf))
    }
}

/// The value of a hexadecimal digit given as an ASCII byte, in either case.
pub open spec fn hex_value(digit: u8) -> Option<u8> {
    if 0x30 <= digit <= 0x39 {
        Some((digit - 0x30) as u8)
    } else if 0x41 <= digit <= 0x46 {
        Some((digit - 0x41 + 10) as u8)
    } else if 0x61 <= digit <= 0x66 {
        Some((digit - 0x61 + 10) as u8)
    } else {
        None
    }
}

/// Whether every byte of `digits` is a hexadecimal digit.
pub open spec fn all_hex(digits: Seq<u8>) -> bool {
    forall|i: int| 0 <= i < digits.len() ==> (#[trigger] hex_value(digits[i])) is Some
}

/// The bytes that pairs of hexadecimal digits spell, high digit first.
pub open spec fn hex_decoded(digits: Seq<u8>) -> Seq<u8> {
    Seq::new(
        digits.len() / 2,
        |i: int| (16 * hex_value(digits[2 * i]).unwrap() + hex_value(digits[2 * i + 1]).unwrap()) as u8,
    )
}

/// What the SDK makes of a feed identifier written in `text`: 64 hexadecimal
/// digits spell the 32 bytes; of 66 bytes the first two are skipped as a
/// prefix, whatever they are.
pub open spec fn sdk_feed_id(text: Seq<u8>) -> Result<Seq<u8>, u32> {
    if text.len() != 64 && text.len() != 66 {
        Err(FEED_ID_MUST_BE_32_BYTES)
    } else {
        let digits = if text.len() == 66 {
            text.skip(2)
        } else {
            text
        };
        if all_hex(digits) {
            Ok(hex_decoded(digits))
        } else {
            Err(FEED_ID_NON_HEX_CHARACTER)
        }
    }
}

/// Whether the SDK can cut the two bytes of prefix off a text of 66 bytes:
/// the third byte must begin a character, that is, be no continuation byte
/// of UTF-8. Texts of other lengths are never cut.
pub open spec fn prefix_can_be_cut(text: Seq<u8>) -> bool {
    text.len() == 66 ==> !(0x80 <= text[2] <= 0xbf)
}

/// The ledger's error for an SDK error number.
pub open spec fn error_of_code(code: u32) -> ErrorCode {
    if code == PRICE_TOO_OLD {
        ErrorCode::StalePrice
    } else if code == MISMATCHED_FEED_ID {
        ErrorCode::MismatchedFeedId
    } else if code == INSUFFICIENT_VERIFICATION_LEVEL {
        ErrorCode::InsufficientVerificationLevel
    } else if code == FEED_ID_MUST_BE_32_BYTES {
        ErrorCode::FeedIdMustBe32Bytes
    } else if code == FEED_ID_NON_HEX_CHARACTER {
        ErrorCode::FeedIdNonHexCharacter
    } else {
        ErrorCode::UnknownOracleError
    }
}

/// The price that `update` yields for the feed `wanted` at the time `as_of`.
///
/// The checks come in this order: the update must be fully verified
/// (`InsufficientVerificationLevel`), be of the feed asked for
/// (`MismatchedFeedId`), have been published no more than `max_age` seconds
/// before `as_of` (`StalePrice`), and its price must not be negative
/// (`ArithmeticOverflow`).
pub open spec fn quoted(update: PriceUpdate, wanted: [u8; 32], as_of: i64, max_age: u32) -> Result<Quote, ErrorCode> {
    if !(update.verification is Full) {
        Err(ErrorCode::InsufficientVerificationLevel)
    } else if update.feed_id@ != wanted@ {
        Err(ErrorCode::MismatchedFeedId)
    } else if update.publish_time + max_age < as_of {
        Err(ErrorCode::StalePrice)
    } else if update.price < 0 {
        Err(ErrorCode::ArithmeticOverflow)
    } else {
        Ok(Quote { price: update.price as u64, confidence: update.conf })
    }
}

/// The feed identifier written in `input`, or why there is none: the text
/// must be 64 or 66 bytes long (`FeedIdMustBe32Bytes`) and, after the two
/// bytes of prefix that the longer form has, consist of hexadecimal digits
/// (`FeedIdNonHexCharacter`). A prefix that ends inside a character is no
/// prefix: such a text holds a character that is no hexadecimal digit.
pub open spec fn parsed_feed_id(input: &str) -> Result<Seq<u8>, ErrorCode> {
    let text = input.spec_bytes();
    if text.len() != 64 && text.len() != 66 {
        Err(ErrorCode::FeedIdMustBe32Bytes)
    } else if !prefix_can_be_cut(text) {
        Err(ErrorCode::FeedIdNonHexCharacter)
    } else {
        match sdk_feed_id(text) {
            Ok(id) => Ok(id),
            Err(code) => Err(error_of_code(code)),
        }
    }
}

/// Calls `PriceUpdateV2::get_price_no_older_than` of the Pyth receiver SDK on
/// an account built from `update`, with a clock that shows `as_of`.
///
/// Trusted: the SDK refuses an update that is not fully verified, then one of
/// another feed, then one whose publish time plus `max_age` lies before the
/// clock, in that order, and otherwise hands out the update's own price and
/// confidence. The addition saturates, which changes nothing while `max_age`
/// fits a signed 64-bit number; the SDK panics when it does not.
#[verifier::external_body]
fn get_price_no_older_than(update: &PriceUpdate, as_of: i64, max_age: u64, wanted: &[u8; 32]) -> (r: Result<(i64, u64), u32>)
    requires
        max_age <= i64::MAX,
    ensures
        r == sdk_price(*update, as_of, max_age, *wanted),
{
    let level = match update.verification {
        Verification::Full => VerificationLevel::Full,
        Verification::Partial { num_signatures } => VerificationLevel::Partial { num_signatures },
    };
    let PriceUpdate { feed_id, price, conf, exponent, publish_time, .. } = *update;
    let price_message = PriceFeedMessage { feed_id, price, conf, exponent, publish_time, prev_publish_time: publish_time, ema_price: price, ema_conf: conf };
    let account = PriceUpdateV2 { write_authority: Pubkey::default(), verification_level: level, price_message, posted_slot: 0 };
    let clock = Clock { unix_timestamp: as_of, ..Clock::default() };
    match account.get_price_no_older_than(&clock, max_age, wanted) {
        Ok(found) => Ok((found.price, found.conf)),
        Err(e) => Err(e as u32),
    }
}

/// Calls `get_feed_id_from_hex` of the Pyth receiver SDK.
///
/// Trusted: the SDK accepts 64 hexadecimal digits, or 66 bytes of which it
/// skips the first two unread, and decodes each pair of digits into one byte,
/// high digit first, upper and lower case alike. Any other length and any
/// other byte has its own error. The SDK panics when the cut after a prefix
/// of two bytes would fall inside a character.
#[verifier::external_body]
fn get_feed_id_from_hex(input: &str) -> (r: Result<[u8; 32], u32>)
    requires
        prefix_can_be_cut(input.spec_bytes()),
    ensures
        match sdk_feed_id(input.spec_bytes()) {
            Ok(id) => r is Ok && r->Ok_0@ == id,
            Err(code) => r == Err::<[u8; 32], u32>(code),
        },
{
    match pyth_solana_receiver_sdk::price_update::get_feed_id_from_hex(input) {
        Ok(id) => Ok(id),
        Err(e) => Err(e as u32),
    }
}

/// Maps an error number of the SDK to the ledger's error: 10000 is
/// `StalePrice`, 10002 `MismatchedFeedId`, 10003
/// `InsufficientVerificationLevel`, 10004 `FeedIdMustBe32Bytes`, 10005
/// `FeedIdNonHexCharacter`, and every other number `UnknownOracleError`.
pub fn oracle_error(code: u32) -> (e: ErrorCode)
    ensures
        e == error_of_code(code),
{
    if code == PRICE_TOO_OLD {
        ErrorCode::StalePrice
    } else if code == MISMATCHED_FEED_ID {
        ErrorCode::MismatchedFeedId
    } else if code == INSUFFICIENT_VERIFICATION_LEVEL {
        ErrorCode::InsufficientVerificationLevel
    } else if code == FEED_ID_MUST_BE_32_BYTES {
        ErrorCode::FeedIdMustBe32Bytes
    } else if code == FEED_ID_NON_HEX_CHARACTER {
        ErrorCode::FeedIdNonHexCharacter
    } else {
        ErrorCode::UnknownOracleError
    }
}

/// Reads the price of the feed `wanted` from `update`, as of the time `as_of`.
///
/// Returns the update's price and confidence when the update is fully
/// verified, is of that feed, was published no more than `max_age` seconds
/// before `as_of` and has a price that is not negative; otherwise the first
/// of `InsufficientVerificationLevel`, `MismatchedFeedId`, `StalePrice` and
/// `ArithmeticOverflow` that applies.
pub fn oracle_price(update: &PriceUpdate, wanted: &[u8; 32], as_of: i64, max_age: u32) -> (r: Result<Quote, ErrorCode>)
    ensures
        r == quoted(*update, *wanted, as_of, max_age),
{
    match get_price_no_older_than(update, as_of, max_age as u64, wanted) {
        Ok((price, confidence)) => {
            if price < 0 {
                Err(ErrorCode::ArithmeticOverflow)
            } else {
                Ok(Quote { price: price as u64, confidence })
            }
        },
        Err(code) => Err(oracle_error(code)),
    }
}

/// Reads a feed identifier from its hexadecimal form, 64 digits with or
/// without a prefix of two bytes such as `0x`, which is not looked at.
///
/// Fails with `FeedIdMustBe32Bytes` when the text is neither 64 nor 66 bytes
/// long, else with `FeedIdNonHexCharacter` when it holds, after the prefix,
/// anything but hexadecimal digits, or when the prefix ends inside a character.
pub fn feed_id_from_hex(input: &str) -> (r: Result<[u8; 32], ErrorCode>)
    ensures
        match parsed_feed_id(input) {
            Ok(id) => r is Ok && r->Ok_0@ == id,
            Err(e) => r == Err::<[u8; 32], ErrorCode>(e),
        },
{
    let text = input.as_bytes();
    let length = text.len();
    if length != 64 && length != 66 {
        return Err(ErrorCode::FeedIdMustBe32Bytes);
    }
    if length == 66 && 0x80 <= text[2] && text[2] <= 0xbf {
        return Err(ErrorCode::FeedIdNonHexCharacter);
    }
    match get_feed_id_from_hex(input) {
        Ok(id) => Ok(id),
        Err(code) => Err(oracle_error(code)),
    }
}

} // verus!
