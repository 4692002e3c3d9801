//! Creating banks and users.

use vstd::prelude::*;
use crate::state::{proper_fraction, Bank, Position, User};
use crate::math::BPS;

verus! {

/// Who creates a bank, and for which asset.
#[derive(Clone, Copy, Debug, PartialEq, Eq)]
pub struct InitBank {
    pub signer: [u8; 32],
    pub mint: [u8; 32],
}

/// Who opens a position.
#[derive(Clone, Copy, Debug, PartialEq, Eq)]
pub struct InitUser {
    pub signer: [u8; 32],
}

/// Creates the bank of the asset `ctx.mint` under the authority `ctx.signer`,
/// priced by the oracle feed `price_feed_id`, empty on both sides, with both
/// clocks at `created_at`.
///
/// Returns `None` exactly when a parameter lies outside its range: the three
/// fractions `liquidation_threshold`, `max_ltv` and `liquidation_close_factor`
/// must lie in `(0, 1]`, that is between 1 and [`BPS`] basis points.
pub fn init_bank(
    ctx: &InitBank,
    price_feed_id: [u8; 32],
    liquidation_threshold: u64,
    max_ltv: u64,
    liquidation_bonus: u64,
    liquidation_close_factor: u64,
    interest_rate: u64,
    created_at: i64,
) -> (r: Option<Bank>)
    ensures
        r is Some <==> proper_fraction(liquidation_threshold) && proper_fraction(max_ltv)
            && proper_fraction(liquidation_close_factor),
        r matches Some(bank) ==> bank == (Bank {
            asset_id: ctx.mint,
            authority_id: ctx.signer,
            price_feed_id,
            interest_rate,
            liquidation_threshold,
            max_ltv,
            liquidation_bonus,
            liquidation_close_factor,
            total_deposits: 0,
            total_deposit_shares: 0,
            total_borrowed: 0,
            total_borrowed_shares: 0,
            last_updated: created_at,
            last_updated_borrowed: created_at,
        }) && bank.wf(),
{
    if liquidation_threshold == 0 || liquidation_threshold > BPS || max_ltv == 0 || max_ltv > BPS
        || liquidation_close_factor == 0 || liquidation_close_factor > BPS {
        return None;
    }
    Some(
        Bank {
            asset_id: ctx.mint,
            authority_id: ctx.signer,
            price_feed_id,
            interest_rate,
            liquidation_threshold,
            max_ltv,
            liquidation_bonus,
            liquidation_close_factor,
            total_deposits: 0,
            total_deposit_shares: 0,
            total_borrowed: 0,
            total_borrowed_shares: 0,
            last_updated: created_at,
            last_updated_borrowed: created_at,
        },
    )
}

/// Creates the position of `ctx.signer`, with no balance in any asset, whose
/// unit of account is the asset `usdc_address`. Its second record is free for
/// the first other asset that is deposited or borrowed.
pub fn init_user(ctx: &InitUser, usdc_address: [u8; 32], created_at: i64) -> (user: User)
    ensures
        user == (User {
            owner_id: ctx.signer,
            reference_asset_id: usdc_address,
            other_asset_id: None,
            reference: Position {
                deposited_amount: 0,
                deposited_shares: 0,
                borrowed_amount: 0,
                borrowed_shares: 0,
            },
            other: Position {
                deposited_amount: 0,
                deposited_shares: 0,
                borrowed_amount: 0,
                borrowed_shares: 0,
            },
            last_updated: created_at,
            last_updated_borrowed: created_at,
        }),
        user.wf(),
{
    let empty = Position {
        deposited_amount: 0,
        deposited_shares: 0,
        borrowed_amount: 0,
        borrowed_shares: 0,
    };
    User {
        owner_id: ctx.signer,
        reference_asset_id: usdc_address,
        other_asset_id: None,
        reference: empty,
        other: empty,
        last_updated: created_at,
        last_updated_borrowed: created_at,
    }
}

} // verus!
