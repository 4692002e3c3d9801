//! The two records of the ledger: a bank per asset and a position per user.

use vstd::prelude::*;
use crate::error::ErrorCode;
use crate::math::BPS;

verus! {

/// The two sides of a bank: what was lent to it and what it lent out.
#[derive(Clone, Copy, Debug, PartialEq, Eq, Structural)]
pub enum Side {
    Deposit,
    Borrow,
}

/// The two records of a user's position: one for the reference asset, which
/// serves as the stable unit of account, and one for the single other asset
/// that the position holds.
#[derive(Clone, Copy, Debug, PartialEq, Eq, Structural)]
pub enum AssetClass {
    Reference,
    Other,
}

/// The pool of one asset.
///
/// Fractions are in basis points. `interest_rate` is the continuous rate per
/// second in units of 10^-18; the ledger stores it for whoever computes the
/// compounding factor and never interprets it. `price_feed_id` names the
/// oracle feed that prices the bank's asset.
#[derive(Clone, Copy, Debug, PartialEq, Eq)]
pub struct Bank {
    pub asset_id: [u8; 32],
    pub authority_id: [u8; 32],
    pub price_feed_id: [u8; 32],
    pub interest_rate: u64,
    pub liquidation_threshold: u64,
    pub max_ltv: u64,
    pub liquidation_bonus: u64,
    pub liquidation_close_factor: u64,
    pub total_deposits: u64,
    pub total_deposit_shares: u64,
    pub total_borrowed: u64,
    pub total_borrowed_shares: u64,
    pub last_updated: i64,
    pub last_updated_borrowed: i64,
}

/// A user's balances in one asset. The shares decide what the position is
/// worth; the amounts are a cached record of it, to which every operation
/// adds or from which it takes exactly what it moves. Interest makes the
/// shares worth more than the record says; a refresh brings the record up to
/// the shares' worth, and an operation runs one only where the record does
/// not cover what it takes.
#[derive(Clone, Copy, Debug, PartialEq, Eq, Structural)]
pub struct Position {
    pub deposited_amount: u64,
    pub deposited_shares: u64,
    pub borrowed_amount: u64,
    pub borrowed_shares: u64,
}

/// The position of one user: the balances in the reference asset and in one
/// other asset. `other_asset_id` names that other asset once the position
/// holds one; balances in a third asset cannot be filed and are refused.
#[derive(Clone, Copy, Debug, PartialEq, Eq)]
pub struct User {
    pub owner_id: [u8; 32],
    pub reference_asset_id: [u8; 32],
    pub other_asset_id: Option<[u8; 32]>,
    pub reference: Position,
    pub other: Position,
    pub last_updated: i64,
    pub last_updated_borrowed: i64,
}

/// Who holds the funds that a transfer moves: the bank's custody, the user
/// whose position changed, or the liquidator.
#[derive(Clone, Copy, Debug, PartialEq, Eq, Structural)]
pub enum Party {
    Bank,
    User,
    Liquidator,
}

/// A movement of funds that the custody layer has to carry out once the
/// ledger has changed.
#[derive(Clone, Copy, Debug, PartialEq, Eq)]
pub struct Transfer {
    pub asset_id: [u8; 32],
    pub from: Party,
    pub to: Party,
    pub amount: u64,
}

/// A fraction in basis points that lies in `(0, 1]`.
pub open spec fn proper_fraction(bps: u64) -> bool {
    0 < bps <= BPS
}

impl Bank {
    /// The total amount booked on `side`.
    pub open spec fn total(self, side: Side) -> u64 {
        match side {
            Side::Deposit => self.total_deposits,
            Side::Borrow => self.total_borrowed,
        }
    }

    /// The number of shares issued on `side`.
    pub open spec fn shares(self, side: Side) -> u64 {
        match side {
            Side::Deposit => self.total_deposit_shares,
            Side::Borrow => self.total_borrowed_shares,
        }
    }

    /// The time up to which `side` has accrued interest.
    pub open spec fn clock(self, side: Side) -> i64 {
        match side {
            Side::Deposit => self.last_updated,
            Side::Borrow => self.last_updated_borrowed,
        }
    }

    /// This bank with the totals of `side` replaced.
    pub open spec fn with_totals(self, side: Side, total: u64, shares: u64) -> Bank {
        match side {
            Side::Deposit => Bank { total_deposits: total, total_deposit_shares: shares, ..self },
            Side::Borrow => Bank { total_borrowed: total, total_borrowed_shares: shares, ..self },
        }
    }

    /// This bank with the clock of `side` replaced.
    pub open spec fn with_clock(self, side: Side, at: i64) -> Bank {
        match side {
            Side::Deposit => Bank { last_updated: at, ..self },
            Side::Borrow => Bank { last_updated_borrowed: at, ..self },
        }
    }

    /// A side holds no shares exactly when it holds no funds.
    pub open spec fn balanced(self, side: Side) -> bool {
        self.shares(side) == 0 <==> self.total(side) == 0
    }

    /// The risk parameters lie in their ranges.
    pub open spec fn valid_parameters(self) -> bool {
        &&& proper_fraction(self.liquidation_threshold)
        &&& proper_fraction(self.max_ltv)
        &&& proper_fraction(self.liquidation_close_factor)
    }

    /// The invariant of a bank: valid parameters and both sides balanced.
    pub open spec fn wf(self) -> bool {
        &&& self.valid_parameters()
        &&& self.balanced(Side::Deposit)
        &&& self.balanced(Side::Borrow)
    }

    /// Reads the total amount booked on `side`.
    pub fn side_total(&self, side: Side) -> (r: u64)
        ensures
            r == self.total(side),
    {
        match side {
            Side::Deposit => self.total_deposits,
            Side::Borrow => self.total_borrowed,
        }
    }

    /// Reads the number of shares issued on `side`.
    pub fn side_shares(&self, side: Side) -> (r: u64)
        ensures
            r == self.shares(side),
    {
        match side {
            Side::Deposit => self.total_deposit_shares,
            Side::Borrow => self.total_borrowed_shares,
        }
    }

    /// Reads the time up to which `side` has accrued interest.
    pub fn side_clock(&self, side: Side) -> (r: i64)
        ensures
            r == self.clock(side),
    {
        match side {
            Side::Deposit => self.last_updated,
            Side::Borrow => self.last_updated_borrowed,
        }
    }

    /// Replaces the totals of `side` and leaves everything else as it was.
    pub(crate) fn set_totals(&mut self, side: Side, total: u64, shares: u64)
        ensures
            *final(self) == old(self).with_totals(side, total, shares),
    {
        match side {
            Side::Deposit => {
                self.total_deposits = total;
                self.total_deposit_shares = shares;
            },
            Side::Borrow => {
                self.total_borrowed = total;
                self.total_borrowed_shares = shares;
            },
        }
    }

    /// Replaces the clock of `side` and leaves everything else as it was.
    pub(crate) fn set_clock(&mut self, side: Side, at: i64)
        ensures
            *final(self) == old(self).with_clock(side, at),
    {
        match side {
            Side::Deposit => {
                self.last_updated = at;
            },
            Side::Borrow => {
                self.last_updated_borrowed = at;
            },
        }
    }
}

impl Position {
    /// The record of an asset of which nothing is held or owed.
    pub open spec fn empty() -> Position {
        Position { deposited_amount: 0, deposited_shares: 0, borrowed_amount: 0, borrowed_shares: 0 }
    }

    /// Makes the record of an asset of which nothing is held or owed.
    pub fn new() -> (p: Position)
        ensures
            p == Position::empty(),
    {
        Position { deposited_amount: 0, deposited_shares: 0, borrowed_amount: 0, borrowed_shares: 0 }
    }

    /// The cached amount on `side`.
    pub open spec fn amount(self, side: Side) -> u64 {
        match side {
            Side::Deposit => self.deposited_amount,
            Side::Borrow => self.borrowed_amount,
        }
    }

    /// The shares held on `side`.
    pub open spec fn shares(self, side: Side) -> u64 {
        match side {
            Side::Deposit => self.deposited_shares,
            Side::Borrow => self.borrowed_shares,
        }
    }

    /// This position with the balances of `side` replaced.
    pub open spec fn with_balance(self, side: Side, amount: u64, shares: u64) -> Position {
        match side {
            Side::Deposit => Position { deposited_amount: amount, deposited_shares: shares, ..self },
            Side::Borrow => Position { borrowed_amount: amount, borrowed_shares: shares, ..self },
        }
    }

    /// Reads the cached amount on `side`.
    pub fn side_amount(&self, side: Side) -> (r: u64)
        ensures
            r == self.amount(side),
    {
        match side {
            Side::Deposit => self.deposited_amount,
            Side::Borrow => self.borrowed_amount,
        }
    }

    /// Reads the shares held on `side`.
    pub fn side_shares(&self, side: Side) -> (r: u64)
        ensures
            r == self.shares(side),
    {
        match side {
            Side::Deposit => self.deposited_shares,
            Side::Borrow => self.borrowed_shares,
        }
    }

    /// Replaces the balances of `side` and leaves the other side as it was.
    pub(crate) fn set_balance(&mut self, side: Side, amount: u64, shares: u64)
        ensures
            *final(self) == old(self).with_balance(side, amount, shares),
    {
        match side {
            Side::Deposit => {
                self.deposited_amount = amount;
                self.deposited_shares = shares;
            },
            Side::Borrow => {
                self.borrowed_amount = amount;
                self.borrowed_shares = shares;
            },
        }
    }
}

impl User {
    /// The record in which this position keeps the asset `asset_id`, if it
    /// keeps that asset at all.
    pub open spec fn class_of(self, asset_id: [u8; 32]) -> Option<AssetClass> {
        if asset_id@ == self.reference_asset_id@ {
            Some(AssetClass::Reference)
        } else if self.other_asset_id matches Some(id) && id@ == asset_id@ {
            Some(AssetClass::Other)
        } else {
            None
        }
    }

    /// The user's balances in the asset `asset_id`: the record kept for that
    /// asset, or the empty record where the position keeps none.
    pub open spec fn holding(self, asset_id: [u8; 32]) -> Position {
        match self.class_of(asset_id) {
            Some(class) => self.position(class),
            None => Position::empty(),
        }
    }

    /// Whether balances in the asset `asset_id` can be filed: the position
    /// keeps a record for it already, or its second record is still free.
    pub open spec fn can_file(self, asset_id: [u8; 32]) -> bool {
        self.class_of(asset_id) is Some || self.other_asset_id is None
    }

    /// This user with a record for the asset `asset_id`: unchanged where the
    /// position keeps one, else with the free second record given to that
    /// asset, empty.
    pub open spec fn filing(self, asset_id: [u8; 32]) -> User {
        if self.class_of(asset_id) is None && self.other_asset_id is None {
            User { other_asset_id: Some(asset_id), other: Position::empty(), ..self }
        } else {
            self
        }
    }

    /// This user with the record of the asset `asset_id` replaced. A user
    /// that keeps no record for the asset stays as it is.
    pub open spec fn with_holding(self, asset_id: [u8; 32], position: Position) -> User {
        match self.class_of(asset_id) {
            Some(class) => self.with_position(class, position),
            None => self,
        }
    }

    /// The invariant of a position: a second record that belongs to no asset
    /// is empty, and the other asset is not the reference asset.
    pub open spec fn wf(self) -> bool {
        &&& self.other_asset_id is None ==> self.other == Position::empty()
        &&& self.other_asset_id matches Some(id) ==> id@ != self.reference_asset_id@
    }

    /// The balances filed under `class`.
    pub open spec fn position(self, class: AssetClass) -> Position {
        match class {
            AssetClass::Reference => self.reference,
            AssetClass::Other => self.other,
        }
    }

    /// This user with the balances under `class` replaced.
    pub open spec fn with_position(self, class: AssetClass, position: Position) -> User {
        match class {
            AssetClass::Reference => User { reference: position, ..self },
            AssetClass::Other => User { other: position, ..self },
        }
    }

    /// The time of the last operation on `side` of this position.
    pub open spec fn clock(self, side: Side) -> i64 {
        match side {
            Side::Deposit => self.last_updated,
            Side::Borrow => self.last_updated_borrowed,
        }
    }

    /// This user with the clock of `side` replaced.
    pub open spec fn with_clock(self, side: Side, at: i64) -> User {
        match side {
            Side::Deposit => User { last_updated: at, ..self },
            Side::Borrow => User { last_updated_borrowed: at, ..self },
        }
    }

    /// Finds the record in which this position keeps the asset `asset_id`.
    pub fn asset_class(&self, asset_id: &[u8; 32]) -> (class: Option<AssetClass>)
        ensures
            class == self.class_of(*asset_id),
    {
        if same_id(asset_id, &self.reference_asset_id) {
            return Some(AssetClass::Reference);
        }
        match &self.other_asset_id {
            Some(id) => {
                if same_id(id, asset_id) {
                    Some(AssetClass::Other)
                } else {
                    None
                }
            },
            None => None,
        }
    }

    /// Reads the user's balances in the asset `asset_id`; they are empty
    /// where the position keeps no record for it.
    pub fn held(&self, asset_id: &[u8; 32]) -> (p: Position)
        ensures
            p == self.holding(*asset_id),
    {
        match self.asset_class(asset_id) {
            Some(class) => self.balances(class),
            None => Position::new(),
        }
    }

    /// Makes room for balances in the asset `asset_id`: does nothing where
    /// the position keeps a record for it, and gives it the second record
    /// where that is free.
    ///
    /// Fails with `UnsupportedAsset`, changing nothing, exactly when the
    /// position keeps no record for the asset and its second record belongs
    /// to another asset.
    pub fn file(&mut self, asset_id: &[u8; 32]) -> (r: Result<(), ErrorCode>)
        ensures
            old(self).can_file(*asset_id) ==> r is Ok && *final(self) == old(self).filing(*asset_id),
            !old(self).can_file(*asset_id) ==> r == Err::<(), ErrorCode>(ErrorCode::UnsupportedAsset)
                && *final(self) == *old(self),
            r is Ok ==> final(self).class_of(*asset_id) is Some,
            old(self).wf() ==> final(self).wf(),
    {
        match self.asset_class(asset_id) {
            Some(_) => Ok(()),
            None => {
                if self.other_asset_id.is_some() {
                    Err(ErrorCode::UnsupportedAsset)
                } else {
                    self.other_asset_id = Some(*asset_id);
                    self.other = Position::new();
                    Ok(())
                }
            },
        }
    }

    /// Replaces the record of the asset `asset_id`, where the position keeps one.
    pub(crate) fn set_holding(&mut self, asset_id: &[u8; 32], position: Position)
        ensures
            *final(self) == old(self).with_holding(*asset_id, position),
    {
        match self.asset_class(asset_id) {
            Some(class) => self.set_balances(class, position),
            None => {},
        }
    }

    /// Reads the balances filed under `class`.
    pub fn balances(&self, class: AssetClass) -> (p: Position)
        ensures
            p == self.position(class),
    {
        match class {
            AssetClass::Reference => self.reference,
            AssetClass::Other => self.other,
        }
    }

    /// Replaces the balances filed under `class`.
    pub(crate) fn set_balances(&mut self, class: AssetClass, position: Position)
        ensures
            *final(self) == old(self).with_position(class, position),
    {
        match class {
            AssetClass::Reference => {
                self.reference = position;
            },
            AssetClass::Other => {
                self.other = position;
            },
        }
    }

    /// Replaces the clock of `side`.
    pub(crate) fn set_clock(&mut self, side: Side, at: i64)
        ensures
            *final(self) == old(self).with_clock(side, at),
    {
        match side {
            Side::Deposit => {
                self.last_updated = at;
            },
            Side::Borrow => {
                self.last_updated_borrowed = at;
            },
        }
    }
}

impl Transfer {
    /// Whether a custody account holding `available` can pay this transfer.
    pub open spec fn covered_by(self, available: u64) -> bool {
        self.amount <= available
    }

    /// Holds this transfer against the funds of the custody account it
    /// draws on: fails with `InsufficientCustodyFunds` exactly when the
    /// account holds less than the transfer moves.
    pub fn check_custody(&self, available: u64) -> (r: Result<(), ErrorCode>)
        ensures
            self.covered_by(available) ==> r == Ok::<(), ErrorCode>(()),
            !self.covered_by(available) ==> r == Err::<(), ErrorCode>(ErrorCode::InsufficientCustodyFunds),
    {
        if self.amount > available {
            Err(ErrorCode::InsufficientCustodyFunds)
        } else {
            Ok(())
        }
    }
}

/// Whether the identifier `a` comes before `b` in ascending order: at the
/// first byte in which they differ, `a` holds the smaller one.
pub open spec fn comes_before(a: Seq<u8>, b: Seq<u8>) -> bool {
    exists|i: int|
        0 <= i < a.len() && i < b.len() && a[i] < b[i] && forall|j: int| 0 <= j < i ==> a[j] == b[j]
}

/// Decides which of two banks an operation on both has to acquire first, so
/// that concurrent operations always take them in the same order: the bank
/// whose asset identifier comes first in ascending order.
pub fn acquired_first(a: &[u8; 32], b: &[u8; 32]) -> (first: bool)
    ensures
        first == comes_before(a@, b@),
{
    let mut i: usize = 0;
    while i < 32
        invariant
            i <= 32,
            forall|j: int| 0 <= j < i ==> a@[j] == b@[j],
        decreases 32 - i,
    {
        if a[i] < b[i] {
            return true;
        }
        if a[i] > b[i] {
            assert forall|k: int|
                !(0 <= k < 32 && a@[k] < b@[k] && forall|j: int| 0 <= j < k ==> a@[j] == b@[j]) by {
                if 0 <= k < 32 && k > i && (forall|j: int| 0 <= j < k ==> a@[j] == b@[j]) {
                    assert(a@[i as int] == b@[i as int]);
                }
            }
            return false;
        }
        i += 1;
    }
    false
}

/// Tells whether two identifiers hold the same 32 bytes.
pub fn same_id(a: &[u8; 32], b: &[u8; 32]) -> (same: bool)
    ensures
        same == (a@ == b@),
{
    let mut i: usize = 0;
    while i < 32
        invariant
            i <= 32,
            forall|j: int| 0 <= j < i ==> a@[j] == b@[j],
        decreases 32 - i,
    {
        if a[i] != b[i] {
            return false;
        }
        i += 1;
    }
    assert(a@ =~= b@);
    true
}

} // verus!
