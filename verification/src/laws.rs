//! Laws of the ledger: what holds of every bank, user and amount.

use vstd::prelude::*;
use crate::accrual::{accrued, elapsed_time, lemma_compounded_grows};
use crate::error::ErrorCode;
use crate::instructions::liquidate::{capped, payout, seizure_for, settled, SeizePolicy};
use crate::instructions::borrow::borrowed;
use crate::instructions::deposit::deposited;
use crate::instructions::liquidate::liquidated;
use crate::instructions::repay::repaid;
use crate::instructions::withdraw::withdrawn;
use crate::ledger::{
    after_burn, after_credit, after_debit, after_mint, burn_refusal, burned_shares, covering,
    lemma_burn_bounds, minted_shares, owned_value,
};
use crate::math::{
    lemma_mul_div_at_least, lemma_mul_div_at_most, lemma_mul_div_below, lemma_mul_div_loss, BPS, WAD,
};
use crate::state::{comes_before, Bank, Side, User};
use crate::valuation::{assessed, borrow_allowed, health, under_collateralized, Observation};

verus! {

/// The first place in which two different identifiers of one length differ.
proof fn lemma_first_difference(a: Seq<u8>, b: Seq<u8>, from: int) -> (i: int)
    requires
        a.len() == b.len(),
        0 <= from <= a.len(),
        a != b,
        forall|j: int| 0 <= j < from ==> a[j] == b[j],
    ensures
        from <= i < a.len(),
        a[i] != b[i],
        forall|j: int| 0 <= j < i ==> a[j] == b[j],
    decreases a.len() - from,
{
    if from == a.len() {
        assert(a =~= b);
        from
    } else if a[from] != b[from] {
        from
    } else {
        lemma_first_difference(a, b, from + 1)
    }
}

/// The order in which banks are acquired is total and strict: of two
/// different asset identifiers exactly one comes first, and none comes before
/// itself. Two operations on the same two banks therefore acquire them in
/// the same order.
pub proof fn lemma_acquisition_order_is_total(a: Seq<u8>, b: Seq<u8>)
    requires
        a.len() == b.len(),
    ensures
        !comes_before(a, a),
        a != b ==> (comes_before(a, b) <==> !comes_before(b, a)),
{
    if a != b {
        let i = lemma_first_difference(a, b, 0);
        if a[i] < b[i] {
            assert(comes_before(a, b));
            if comes_before(b, a) {
                let k = choose|k: int|
                    0 <= k < b.len() && k < a.len() && b[k] < a[k] && forall|j: int|
                        0 <= j < k ==> b[j] == a[j];
                if k < i {
                    assert(a[k] == b[k]);
                } else if k > i {
                    assert(b[i] == a[i]);
                }
            }
        } else {
            assert(comes_before(b, a));
            if comes_before(a, b) {
                let k = choose|k: int|
                    0 <= k < a.len() && k < b.len() && a[k] < b[k] && forall|j: int|
                        0 <= j < k ==> a[j] == b[j];
                if k < i {
                    assert(a[k] == b[k]);
                } else if k > i {
                    assert(a[i] == b[i]);
                }
            }
        }
    }
}

/// Balances are kept per asset: whatever is booked on or taken from a bank
/// changes the user's record of that bank's asset and no other. What the
/// user holds and owes in every other asset reads the same before and after.
pub proof fn lemma_only_the_banks_asset_changes(bank: Bank, user: User, side: Side, amount: u64, other: [u8; 32])
    requires
        other@ != bank.asset_id@,
    ensures
        after_credit(bank, user, side, amount) matches Ok((_, after)) ==> after.holding(other) == user.holding(
            other,
        ),
        after_debit(bank, user, side, amount) matches Ok((_, after)) ==> after.holding(other) == user.holding(
            other,
        ),
        after_mint(bank, user, side, amount) matches Ok((_, after)) ==> after.holding(other) == user.holding(
            other,
        ),
        after_burn(bank, user, side, amount) matches Ok((_, after)) ==> after.holding(other) == user.holding(
            other,
        ),
{
}

/// A position takes balances in its reference asset and in one other asset.
/// Booking on the bank of a third asset is refused before anything changes,
/// and nothing can be taken from it, because nothing is held or owed there.
pub proof fn lemma_a_third_asset_is_refused(bank: Bank, user: User, side: Side, amount: u64)
    requires
        !user.can_file(bank.asset_id),
    ensures
        after_credit(bank, user, side, amount) == Err::<(Bank, User), ErrorCode>(ErrorCode::UnsupportedAsset),
        user.holding(bank.asset_id) == crate::state::Position::empty(),
        owned_value(bank, user, side) == 0,
        amount > 0 ==> after_debit(bank, user, side, amount) is Err,
{
}

/// Every step of the ledger keeps a bank well formed: a side has no shares
/// exactly when it has no funds, before and after accrual, minting and burning.
pub proof fn lemma_steps_keep_banks_balanced(
    bank: Bank,
    user: User,
    side: Side,
    amount: u64,
    as_of: i64,
    interest: u128,
)
    requires
        bank.wf(),
    ensures
        accrued(bank, side, as_of, interest) matches Ok(b) ==> b.wf(),
        after_mint(bank, user, side, amount) matches Ok((b, _)) ==> b.wf(),
        after_burn(bank, user, side, amount) matches Ok((b, _)) ==> b.wf(),
{
    lemma_compounded_grows(bank.total(side) as nat, interest as nat);
    if after_burn(bank, user, side, amount) is Ok {
        lemma_burn_bounds(
            amount as nat,
            bank.total(side) as nat,
            bank.shares(side) as nat,
            user.holding(bank.asset_id).shares(side) as nat,
        );
    }
}

/// Booking an amount and taking it out again at once, where both steps
/// succeed, restores the bank and the user's balances exactly: the shares
/// retired are the shares issued, so rounding leaves no drift at all. The
/// user comes out as it went in, but for the record that was made for the
/// bank's asset if the position kept none.
pub proof fn lemma_mint_burn_round_trip(bank: Bank, user: User, side: Side, amount: u64)
    requires
        bank.wf(),
        after_mint(bank, user, side, amount) is Ok,
        after_burn(
            after_mint(bank, user, side, amount)->Ok_0.0,
            after_mint(bank, user, side, amount)->Ok_0.1,
            side,
            amount,
        ) is Ok,
    ensures
        after_burn(
            after_mint(bank, user, side, amount)->Ok_0.0,
            after_mint(bank, user, side, amount)->Ok_0.1,
            side,
            amount,
        ) == Ok::<(Bank, User), ErrorCode>((bank, user.filing(bank.asset_id))),
        user.filing(bank.asset_id).holding(bank.asset_id) == user.holding(bank.asset_id),
        user.class_of(bank.asset_id) is Some ==> user.filing(bank.asset_id) == user,
{
    let (b1, u1) = after_mint(bank, user, side, amount)->Ok_0;
    let a = amount as nat;
    let total = bank.total(side) as nat;
    let shares = bank.shares(side) as nat;
    let minted = minted_shares(a, total, shares);
    let burned = burned_shares(a, (total + a) as nat, (shares + minted) as nat);
    assert(b1.total(side) == total + a);
    assert(b1.shares(side) == shares + minted);
    assert(burn_refusal(b1, u1, side, amount) is None);
    assert(total + a > 0);
    if total == 0 {
        assert(shares == 0);
        assert(minted == a);
        assert((a * a) / a == a) by (nonlinear_arith)
            requires
                a > 0,
        ;
    } else {
        lemma_mul_div_loss(a, shares, total);
        assert(a * (shares + minted) >= minted * (total + a)) by (nonlinear_arith)
            requires
                minted * total <= a * shares,
        ;
        assert(a * (shares + minted) < (minted + 1) * (total + a)) by (nonlinear_arith)
            requires
                a * shares < minted * total + total,
        ;
        lemma_mul_div_at_least(a, shares + minted, total + a, minted);
        lemma_mul_div_below(a, shares + minted, total + a, minted + 1);
    }
    assert(burned == minted);
    let (b2, u2) = after_burn(b1, u1, side, amount)->Ok_0;
    assert(b2 == bank);
    assert(u2 == user.filing(bank.asset_id));
}

/// Minting and burning move the value of a share by rounding only. With
/// `total` and `shares` the side before and `total2` and `shares2` after, the
/// cross products `total2 * shares` and `total * shares2` differ by less than
/// `total`: a mint never lowers what a share is worth, a burn never raises it.
pub proof fn lemma_share_value_moves_by_rounding_only(bank: Bank, user: User, side: Side, amount: u64)
    requires
        bank.total(side) > 0,
    ensures
        after_mint(bank, user, side, amount) matches Ok((b, _)) ==> {
            &&& bank.total(side) * b.shares(side) <= b.total(side) * bank.shares(side)
            &&& b.total(side) * bank.shares(side) < bank.total(side) * b.shares(side) + bank.total(side)
        },
        after_burn(bank, user, side, amount) matches Ok((b, _)) ==> {
            &&& b.total(side) * bank.shares(side) <= bank.total(side) * b.shares(side)
            &&& bank.total(side) * b.shares(side) < b.total(side) * bank.shares(side) + bank.total(side)
        },
{
    let a = amount as nat;
    let total = bank.total(side) as nat;
    let shares = bank.shares(side) as nat;
    let moved = (a * shares) / total;
    lemma_mul_div_loss(a, shares, total);
    if after_mint(bank, user, side, amount) is Ok {
        let b = after_mint(bank, user, side, amount)->Ok_0.0;
        assert(b.total(side) == total + a);
        assert(b.shares(side) == shares + moved);
        assert(total * (shares + moved) <= (total + a) * shares && (total + a) * shares < total * (shares
            + moved) + total) by (nonlinear_arith)
            requires
                moved * total <= a * shares,
                a * shares < moved * total + total,
        ;
    }
    if after_burn(bank, user, side, amount) is Ok {
        let b = after_burn(bank, user, side, amount)->Ok_0.0;
        lemma_burn_bounds(
            a,
            total,
            shares,
            user.holding(bank.asset_id).shares(side) as nat,
        );
        assert(b.total(side) == total - a);
        assert(b.shares(side) == shares - moved);
        assert((total - a) * shares <= total * (shares - moved) && total * (shares - moved) < (total - a)
            * shares + total) by (nonlinear_arith)
            requires
                moved * total <= a * shares,
                a * shares < moved * total + total,
                a <= total,
                moved <= shares,
        ;
    }
}

/// Accrual never touches shares and never shrinks a total; over a positive
/// interval it raises the total as soon as the interest on it amounts to one
/// whole unit. The other side of the bank stays as it was.
pub proof fn lemma_accrual_is_monotonic(bank: Bank, side: Side, other: Side, as_of: i64, interest: u128)
    requires
        accrued(bank, side, as_of, interest) is Ok,
        other != side,
    ensures
        accrued(bank, side, as_of, interest)->Ok_0.shares(side) == bank.shares(side),
        accrued(bank, side, as_of, interest)->Ok_0.total(side) >= bank.total(side),
        elapsed_time(bank, side, as_of) > 0 && bank.total(side) * interest >= WAD ==> accrued(
            bank,
            side,
            as_of,
            interest,
        )->Ok_0.total(side) > bank.total(side),
        accrued(bank, side, as_of, interest)->Ok_0.total(other) == bank.total(other),
        accrued(bank, side, as_of, interest)->Ok_0.shares(other) == bank.shares(other),
        accrued(bank, side, as_of, interest)->Ok_0.clock(other) == bank.clock(other),
{
    lemma_compounded_grows(bank.total(side) as nat, interest as nat);
}

/// A burn that succeeds takes no more than is there: the bank's total and
/// shares and the user's cached amount and shares all cover what is taken,
/// so no balance wraps or goes negative.
pub proof fn lemma_burn_never_overdraws(bank: Bank, user: User, side: Side, amount: u64)
    requires
        after_burn(bank, user, side, amount) is Ok,
    ensures
        amount <= bank.total(side),
        amount <= user.holding(bank.asset_id).amount(side),
        amount <= owned_value(bank, user, side),
        burned_shares(amount as nat, bank.total(side) as nat, bank.shares(side) as nat) <= bank.shares(side),
        burned_shares(amount as nat, bank.total(side) as nat, bank.shares(side) as nat) <= user.holding(bank.asset_id).shares(side),
{
    lemma_burn_bounds(
        amount as nat,
        bank.total(side) as nat,
        bank.shares(side) as nat,
        user.holding(bank.asset_id).shares(side) as nat,
    );
}

/// The health factor and the test for liquidation agree: wherever the
/// health factor can be computed, it is below one exactly when the position
/// is under-collateralized. Rounding the factor down never changes the
/// verdict, and a position without debt is never under-collateralized.
pub proof fn lemma_unhealthy_means_under_collateralized(collateral_usd: u128, debt_usd: u128, threshold: u64)
    ensures
        health(collateral_usd, debt_usd, threshold) matches Ok(factor) ==> (factor.unhealthy()
            <==> under_collateralized(collateral_usd as nat, debt_usd as nat, threshold as nat)),
        debt_usd == 0 ==> !under_collateralized(collateral_usd as nat, debt_usd as nat, threshold as nat),
{
    let weighted = collateral_usd as nat * threshold as nat;
    let debt = debt_usd as nat;
    let one = BPS as nat;
    if debt_usd > 0 {
        assert(weighted / debt < one <==> weighted < debt * one) by (nonlinear_arith)
            requires
                debt > 0,
                weighted >= 0,
        ;
    } else {
        assert(debt * one == 0) by (nonlinear_arith)
            requires
                debt == 0,
        ;
    }
}

/// The borrow limit is the test for liquidation on the position as the
/// borrow would leave it: a borrow is refused exactly when the position with
/// the new debt would be under-collateralized, so a borrow that passes
/// leaves a health factor of at least one at the prices it was judged at.
pub proof fn lemma_allowed_borrow_stays_healthy(collateral_usd: u128, debt_usd: u128, new_usd: u128, threshold: u64)
    ensures
        borrow_allowed(collateral_usd, debt_usd, new_usd, threshold) is Ok <==> !under_collateralized(
            collateral_usd as nat,
            (debt_usd + new_usd) as nat,
            threshold as nat,
        ),
        borrow_allowed(collateral_usd, debt_usd, new_usd, threshold) is Ok && debt_usd + new_usd <= u128::MAX
            ==> (health(collateral_usd, (debt_usd + new_usd) as u128, threshold) matches Ok(factor)
            ==> !factor.unhealthy()),
{
    if debt_usd + new_usd <= u128::MAX {
        lemma_unhealthy_means_under_collateralized(collateral_usd, (debt_usd + new_usd) as u128, threshold);
    }
}

/// Where the position can be priced, a borrow is refused with
/// `OverBorrowableAmount` exactly when the collateral, weighted by the
/// collateral bank's threshold, is worth less than the present debt plus the
/// new amount at the oracle's price. No size of the values changes that.
pub proof fn lemma_borrow_is_refused_exactly_over_the_limit(
    collateral_bank: Bank,
    borrow_bank: Bank,
    user: User,
    amount: u64,
    as_of: i64,
    max_age: u32,
    collateral_seen: Observation,
    borrow_seen: Observation,
)
    requires
        assessed(collateral_bank, borrow_bank, user, as_of, max_age, collateral_seen, borrow_seen) is Ok,
    ensures
        ({
            let (c, b, exposure) = assessed(
                collateral_bank,
                borrow_bank,
                user,
                as_of,
                max_age,
                collateral_seen,
                borrow_seen,
            )->Ok_0;
            borrowed(collateral_bank, borrow_bank, user, amount, as_of, max_age, collateral_seen, borrow_seen)
                == Err::<(Bank, Bank, User), ErrorCode>(ErrorCode::OverBorrowableAmount)
                <==> under_collateralized(
                exposure.collateral_usd as nat,
                (exposure.debt_usd + amount * exposure.debt_price) as nat,
                c.liquidation_threshold as nat,
            )
        }),
{
    let (c, b, exposure) = assessed(
        collateral_bank,
        borrow_bank,
        user,
        as_of,
        max_age,
        collateral_seen,
        borrow_seen,
    )->Ok_0;
    crate::math::lemma_product_fits(amount, exposure.debt_price);
}

/// Where the position can be priced, a liquidation is refused with
/// `NotUnderCollateralized` exactly when the position is not
/// under-collateralized: when there is no debt, or the collateral weighted by
/// the collateral bank's threshold covers it. No size of the values and no
/// later step changes that.
pub proof fn lemma_liquidation_is_refused_exactly_when_covered(
    collateral_bank: Bank,
    debt_bank: Bank,
    user: User,
    as_of: i64,
    max_age: u32,
    policy: SeizePolicy,
    collateral_seen: Observation,
    debt_seen: Observation,
)
    requires
        assessed(collateral_bank, debt_bank, user, as_of, max_age, collateral_seen, debt_seen) is Ok,
    ensures
        ({
            let (c, d, exposure) = assessed(
                collateral_bank,
                debt_bank,
                user,
                as_of,
                max_age,
                collateral_seen,
                debt_seen,
            )->Ok_0;
            liquidated(collateral_bank, debt_bank, user, as_of, max_age, policy, collateral_seen, debt_seen)
                == Err::<(Bank, Bank, User, u64, u64), ErrorCode>(ErrorCode::NotUnderCollateralized)
                <==> !under_collateralized(
                exposure.collateral_usd as nat,
                exposure.debt_usd as nat,
                c.liquidation_threshold as nat,
            )
        }),
{
}

/// A liquidation repays no more than the close factor allows and seizes at
/// least what it repays: `repay_usd <= debt_usd` while the close factor is at
/// most one, and `seize_usd >= repay_usd` whatever the bonus.
pub proof fn lemma_payout_bounds(debt_usd: u128, close_factor: u64, bonus: u64)
    requires
        payout(debt_usd, close_factor, bonus) is Ok,
    ensures
        close_factor <= BPS ==> payout(debt_usd, close_factor, bonus)->Ok_0.repay_usd <= debt_usd,
        payout(debt_usd, close_factor, bonus)->Ok_0.seize_usd >= payout(
            debt_usd,
            close_factor,
            bonus,
        )->Ok_0.repay_usd,
        bonus == 0 ==> payout(debt_usd, close_factor, bonus)->Ok_0.seize_usd == payout(
            debt_usd,
            close_factor,
            bonus,
        )->Ok_0.repay_usd,
{
    let one = BPS as nat;
    let capped = debt_usd as nat * close_factor as nat;
    let repay = capped / one;
    let raised = repay * (one + bonus as nat);
    if close_factor <= BPS {
        assert(capped / one <= debt_usd) by (nonlinear_arith)
            requires
                capped == debt_usd as nat * close_factor as nat,
                close_factor <= one,
                one > 0,
        ;
    }
    assert(raised / one >= repay) by (nonlinear_arith)
        requires
            raised == repay * (one + bonus as nat),
            one > 0,
    ;
    if bonus == 0 {
        assert(raised / one == repay) by (nonlinear_arith)
            requires
                raised == repay * one,
                one > 0,
        ;
    }
}

/// Under the policy that caps the seizure, settling never fails for want of
/// collateral: what is settled is covered by what the position holds, so
/// `InsufficientFunds` cannot come out. The repayment is never raised, and
/// where nothing is repaid nothing is seized.
pub proof fn lemma_capped_seizure_is_covered(
    collateral_bank: Bank,
    debt_bank: Bank,
    user: User,
    repay: u64,
    seize: u64,
    debt_price: u64,
    collateral_price: u64,
    bonus: u64,
)
    requires
        capped(
            SeizePolicy::CapAtBalance,
            repay,
            seize,
            owned_value(collateral_bank, user, Side::Deposit),
            debt_price,
            collateral_price,
            bonus,
        ) is Ok,
        seizure_for(repay, debt_price, collateral_price, bonus) == Ok::<u64, ErrorCode>(seize),
    ensures
        ({
            let (repay2, seized) = capped(
                SeizePolicy::CapAtBalance,
                repay,
                seize,
                owned_value(collateral_bank, user, Side::Deposit),
                debt_price,
                collateral_price,
                bonus,
            )->Ok_0;
            &&& seized <= owned_value(collateral_bank, user, Side::Deposit)
            &&& repay2 <= repay
            &&& repay2 == 0 ==> seized == 0
            &&& settled(collateral_bank, debt_bank, user, repay2, seized) != Err::<(Bank, Bank, User), ErrorCode>(
                ErrorCode::InsufficientFunds,
            )
        }),
{
    let available = owned_value(collateral_bank, user, Side::Deposit);
    let (repay2, seized) = capped(
        SeizePolicy::CapAtBalance,
        repay,
        seize,
        available,
        debt_price,
        collateral_price,
        bonus,
    )->Ok_0;
    if seize > available {
        assert(repay as nat * available <= repay as nat * seize as nat) by (nonlinear_arith)
            requires
                available <= seize,
        ;
        lemma_mul_div_at_most(repay as nat, available, seize as nat, repay as nat);
    }
    lemma_nothing_repaid_earns_nothing(debt_price, collateral_price, bonus);
    assert(seized <= available);
    if after_debit(debt_bank, user, Side::Borrow, repay2) is Ok {
        let u1 = after_debit(debt_bank, user, Side::Borrow, repay2)->Ok_0.1;
        assert(owned_value(collateral_bank, u1, Side::Deposit) == available);
        if covering(collateral_bank, u1, Side::Deposit, seized) is Ok {
            let u2 = covering(collateral_bank, u1, Side::Deposit, seized)->Ok_0;
            assert(owned_value(collateral_bank, u2, Side::Deposit) == available);
        }
    }
}

/// A repayment of nothing earns no collateral, whatever the prices and the
/// bonus: where the seizure can be computed at all, it is zero.
pub proof fn lemma_nothing_repaid_earns_nothing(debt_price: u64, collateral_price: u64, bonus: u64)
    ensures
        seizure_for(0, debt_price, collateral_price, bonus) matches Ok(earned) ==> earned == 0,
        collateral_price != 0 ==> seizure_for(0, debt_price, collateral_price, bonus) == Ok::<u64, ErrorCode>(0),
{
    assert(0 * debt_price * (BPS + bonus) == 0) by (nonlinear_arith);
}

/// A deposit followed at once by a withdrawal of the same amount, where both
/// succeed, restores everything: the bank is the bank as the deposit accrued
/// it, and the user is the user as before, cached amounts and shares alike in
/// every asset, with the deposit clock at the time of the operations and
/// with an empty record for the bank's asset if the position kept none.
pub proof fn lemma_deposit_withdraw_round_trip(
    bank: Bank,
    user: User,
    amount: u64,
    as_of: i64,
    interest: u128,
    later_interest: u128,
)
    requires
        bank.wf(),
        deposited(bank, user, amount, as_of, interest) is Ok,
        withdrawn(
            deposited(bank, user, amount, as_of, interest)->Ok_0.0,
            deposited(bank, user, amount, as_of, interest)->Ok_0.1,
            amount,
            as_of,
            later_interest,
        ) is Ok,
    ensures
        accrued(bank, Side::Deposit, as_of, interest) is Ok,
        withdrawn(
            deposited(bank, user, amount, as_of, interest)->Ok_0.0,
            deposited(bank, user, amount, as_of, interest)->Ok_0.1,
            amount,
            as_of,
            later_interest,
        ) == Ok::<(Bank, User), ErrorCode>(
            (
                accrued(bank, Side::Deposit, as_of, interest)->Ok_0,
                user.filing(bank.asset_id).with_clock(Side::Deposit, as_of),
            ),
        ),
        forall|asset: [u8; 32]| #[trigger]
            user.filing(bank.asset_id).holding(asset) == user.holding(asset),
{
    let side = Side::Deposit;
    let b0 = accrued(bank, side, as_of, interest)->Ok_0;
    lemma_compounded_grows(bank.total(side) as nat, interest as nat);
    assert(b0.wf());
    assert(b0.clock(side) == as_of);
    let (bm, um) = after_mint(b0, user, side, amount)->Ok_0;
    let (b1, u1) = deposited(bank, user, amount, as_of, interest)->Ok_0;
    assert(b1 == bm);
    assert(u1 == um.with_clock(side, as_of));
    assert(accrued(b1, side, as_of, later_interest) == Ok::<Bank, ErrorCode>(b1));
    assert(covering(b1, u1, side, amount) == Ok::<User, ErrorCode>(u1));
    assert(burn_refusal(b1, u1, side, amount) == burn_refusal(bm, um, side, amount));
    lemma_mint_burn_round_trip(b0, user, side, amount);
    let (b2, u2) = after_burn(bm, um, side, amount)->Ok_0;
    assert(b2 == b0);
    assert(b0.asset_id == bank.asset_id);
    assert(u2 == user.filing(bank.asset_id));
    assert(after_burn(b1, u1, side, amount)->Ok_0.0 == b0);
    assert(after_burn(b1, u1, side, amount)->Ok_0.1 == user.filing(bank.asset_id).with_clock(side, as_of));
}

/// Taking nothing from a side that holds funds changes neither the bank
/// nor the user's balances, whatever the position: no share moves and no
/// cached amount is touched. A repayment or withdrawal of nothing is
/// therefore accrual alone.
pub proof fn lemma_debit_of_nothing_changes_nothing(bank: Bank, user: User, side: Side)
    requires
        bank.total(side) > 0,
    ensures
        after_debit(bank, user, side, 0) == Ok::<(Bank, User), ErrorCode>(
            (bank, user.with_clock(side, bank.clock(side))),
        ),
{
    let total = bank.total(side) as nat;
    let shares = bank.shares(side) as nat;
    assert((0nat * shares) / total == 0) by (nonlinear_arith)
        requires
            total > 0,
    ;
    assert(covering(bank, user, side, 0) == Ok::<User, ErrorCode>(user));
    assert(burn_refusal(bank, user, side, 0) is None);
    let (b, u) = after_burn(bank, user, side, 0)->Ok_0;
    assert(b == bank);
    assert(u == user);
}

/// A repayment of nothing is accrual alone: where the borrow side accrues
/// and holds debt, the bank comes out as accrual leaves it, with its total
/// grown and its shares untouched, and the user's debt and shares unchanged.
pub proof fn lemma_repay_of_nothing_only_accrues(bank: Bank, user: User, as_of: i64, interest: u128)
    requires
        accrued(bank, Side::Borrow, as_of, interest) is Ok,
        bank.total_borrowed > 0,
    ensures
        repaid(bank, user, 0, as_of, interest) == Ok::<(Bank, User), ErrorCode>(
            (accrued(bank, Side::Borrow, as_of, interest)->Ok_0, user.with_clock(Side::Borrow, as_of)),
        ),
        accrued(bank, Side::Borrow, as_of, interest)->Ok_0.total_borrowed_shares == bank.total_borrowed_shares,
        accrued(bank, Side::Borrow, as_of, interest)->Ok_0.total_borrowed >= bank.total_borrowed,
        elapsed_time(bank, Side::Borrow, as_of) > 0 && bank.total_borrowed * interest >= WAD ==> accrued(
            bank,
            Side::Borrow,
            as_of,
            interest,
        )->Ok_0.total_borrowed > bank.total_borrowed,
{
    lemma_compounded_grows(bank.total_borrowed as nat, interest as nat);
    let b = accrued(bank, Side::Borrow, as_of, interest)->Ok_0;
    assert(b.clock(Side::Borrow) == as_of);
    lemma_debit_of_nothing_changes_nothing(b, user, Side::Borrow);
}

} // verus!
