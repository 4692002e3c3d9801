//! The failures an operation can report.

use vstd::prelude::*;

verus! {

/// Why an operation was refused. A refused operation has no effect.
#[derive(Clone, Copy, Debug, PartialEq, Eq, Structural)]
pub enum ErrorCode {
    /// A withdrawal or seizure asks for more than the position is worth.
    InsufficientFunds,
    /// A borrow would push the debt above the threshold-weighted collateral.
    OverBorrowableAmount,
    /// A repayment is larger than what the position owes.
    OverRepay,
    /// The position's health factor is at least one, so it cannot be liquidated.
    NotUnderCollateralized,
    /// The oracle's price is older than the allowed age.
    StalePrice,
    /// The oracle's price is for another feed than the one asked for.
    MismatchedFeedId,
    /// The oracle's price was not verified by a full guardian quorum.
    InsufficientVerificationLevel,
    /// A feed identifier is not 64 hexadecimal digits (66 with a prefix).
    FeedIdMustBe32Bytes,
    /// A feed identifier holds a character that is not a hexadecimal digit.
    FeedIdNonHexCharacter,
    /// The oracle refused with an error that the ledger does not know.
    UnknownOracleError,
    /// The position holds another asset beside the reference asset already
    /// and cannot file balances in a third.
    UnsupportedAsset,
    /// The requested time lies before the bank's last accrual.
    ClockSkew,
    /// A result does not fit its integer type, or a balance would go negative.
    ArithmeticOverflow,
    /// A ratio over an empty total was asked for.
    DivisionByZero,
    /// The custody layer could not move the funds.
    InsufficientCustodyFunds,
}

impl ErrorCode {
    /// The message that describes this error to a person.
    pub open spec fn text(self) -> Seq<char> {
        match self {
            ErrorCode::InsufficientFunds => "Insufficient Funds"@,
            ErrorCode::OverBorrowableAmount => "Over Borrowable Amount"@,
            ErrorCode::OverRepay => "Over Repay"@,
            ErrorCode::NotUnderCollateralized => "User is not under collateralized, can't be liquidated"@,
            ErrorCode::StalePrice => "This price feed update's age exceeds the requested maximum age"@,
            ErrorCode::MismatchedFeedId => "The price feed update doesn't match the requested feed id"@,
            ErrorCode::InsufficientVerificationLevel => "This price feed update has a lower verification level than the one requested"@,
            ErrorCode::FeedIdMustBe32Bytes => "Feed id must be 32 Bytes, that's 64 hex characters or 66 with a 0x prefix"@,
            ErrorCode::FeedIdNonHexCharacter => "Feed id contains non-hex characters"@,
            ErrorCode::UnknownOracleError => "The oracle refused with an unknown error"@,
            ErrorCode::UnsupportedAsset => "The position cannot hold a third asset"@,
            ErrorCode::ClockSkew => "The requested time lies before the last accrual"@,
            ErrorCode::ArithmeticOverflow => "Arithmetic Overflow"@,
            ErrorCode::DivisionByZero => "Division By Zero"@,
            ErrorCode::InsufficientCustodyFunds => "Insufficient Custody Funds"@,
        }
    }

    /// Returns the message that describes this error to a person.
    pub fn message(&self) -> (m: &'static str)
        ensures
            m@ == self.text(),
    {
        match self {
            ErrorCode::InsufficientFunds => "Insufficient Funds",
            ErrorCode::OverBorrowableAmount => "Over Borrowable Amount",
            ErrorCode::OverRepay => "Over Repay",
            ErrorCode::NotUnderCollateralized => "User is not under collateralized, can't be liquidated",
            ErrorCode::StalePrice => "This price feed update's age exceeds the requested maximum age",
            ErrorCode::MismatchedFeedId => "The price feed update doesn't match the requested feed id",
            ErrorCode::InsufficientVerificationLevel => "This price feed update has a lower verification level than the one requested",
            ErrorCode::FeedIdMustBe32Bytes => "Feed id must be 32 Bytes, that's 64 hex characters or 66 with a 0x prefix",
            ErrorCode::FeedIdNonHexCharacter => "Feed id contains non-hex characters",
            ErrorCode::UnknownOracleError => "The oracle refused with an unknown error",
            ErrorCode::UnsupportedAsset => "The position cannot hold a third asset",
            ErrorCode::ClockSkew => "The requested time lies before the last accrual",
            ErrorCode::ArithmeticOverflow => "Arithmetic Overflow",
            ErrorCode::DivisionByZero => "Division By Zero",
            ErrorCode::InsufficientCustodyFunds => "Insufficient Custody Funds",
        }
    }
}

} // verus!
