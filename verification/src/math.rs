//! Fixed-point arithmetic shared by the ledger.
//!
//! Risk parameters are fractions in basis points ([`BPS`] stands for 1.0);
//! compounding factors are fractions in units of 10^-18 ([`WAD`] stands for 1.0).
//! All quotients round toward zero. Products that are only compared are
//! computed in full width, so that a comparison never fails for size.

use vstd::prelude::*;

verus! {

/// One, in basis points.
pub const BPS: u64 = 10_000;

/// One, in the unit of compounding factors.
pub const WAD: u128 = 1_000_000_000_000_000_000;

/// Two to the power of 64: the size of the limbs that wide products are
/// put together from.
pub const LIMB: u128 = 0x1_0000_0000_0000_0000;

/// A number of up to 256 bits in two halves.
#[derive(Clone, Copy, Debug, PartialEq, Eq, Structural)]
pub struct Wide {
    pub high: u128,
    pub low: u128,
}

impl Wide {
    /// The number that the two halves stand for: `high * 2^128 + low`.
    pub open spec fn value(self) -> nat {
        self.high as nat * 0x1_0000_0000_0000_0000_0000_0000_0000_0000 + self.low as nat
    }
}

/// `floor(a * b / c)`, the proportional part of `a` that `b` out of `c` stands for.
pub open spec fn mul_div(a: nat, b: nat, c: nat) -> nat
    recommends
        c > 0,
{
    (a * b) / c
}

/// The product of two 64-bit values always fits 128 bits.
pub proof fn lemma_product_fits(a: u64, b: u64)
    ensures
        0 <= a * b <= u128::MAX,
{
    assert(0 <= a * b <= 0xffff_ffff_ffff_ffff * 0xffff_ffff_ffff_ffff) by (nonlinear_arith)
        requires
            0 <= a <= 0xffff_ffff_ffff_ffff,
            0 <= b <= 0xffff_ffff_ffff_ffff,
    ;
}

/// Computes `floor(a * b / c)` without losing bits in the product.
pub(crate) fn mul_div_floor(a: u64, b: u64, c: u64) -> (r: u128)
    requires
        c > 0,
    ensures
        r == mul_div(a as nat, b as nat, c as nat),
{
    proof {
        lemma_product_fits(a, b);
    }
    let product: u128 = (a as u128) * (b as u128);
    product / (c as u128)
}

/// Computes the product of a 128-bit and a 64-bit number in full.
pub fn wide_product(x: u128, y: u64) -> (r: Wide)
    ensures
        r.value() == x * y,
        r.high < LIMB,
{
    let upper: u128 = x / LIMB;
    let lower: u128 = x % LIMB;
    let factor: u128 = y as u128;
    assert(upper * factor <= 0xffff_ffff_ffff_ffff * 0xffff_ffff_ffff_ffff && lower * factor
        <= 0xffff_ffff_ffff_ffff * 0xffff_ffff_ffff_ffff) by (nonlinear_arith)
        requires
            0 <= upper <= 0xffff_ffff_ffff_ffff,
            0 <= lower <= 0xffff_ffff_ffff_ffff,
            0 <= factor <= 0xffff_ffff_ffff_ffff,
    ;
    let a: u128 = upper * factor;
    let b: u128 = lower * factor;
    let middle: u128 = a % LIMB + b / LIMB;
    let low: u128 = (middle % LIMB) * LIMB + b % LIMB;
    let high: u128 = a / LIMB + middle / LIMB;
    assert(x * y == a * LIMB + b) by (nonlinear_arith)
        requires
            x == upper * LIMB + lower,
            a == upper * factor,
            b == lower * factor,
            factor == y,
    ;
    Wide { high, low }
}

/// Adds two wide numbers whose high halves are below 2^127.
pub(crate) fn wide_sum(a: Wide, b: Wide) -> (r: Wide)
    requires
        a.high < 0x8000_0000_0000_0000_0000_0000_0000_0000,
        b.high < 0x8000_0000_0000_0000_0000_0000_0000_0000,
    ensures
        r.value() == a.value() + b.value(),
{
    if a.low > u128::MAX - b.low {
        Wide { high: a.high + b.high + 1, low: a.low - (u128::MAX - b.low) - 1 }
    } else {
        Wide { high: a.high + b.high, low: a.low + b.low }
    }
}

/// Tells whether one wide number is smaller than another.
pub fn wide_less(a: Wide, b: Wide) -> (r: bool)
    ensures
        r == (a.value() < b.value()),
{
    a.high < b.high || (a.high == b.high && a.low < b.low)
}

/// A quotient that rounds down never exceeds a bound that the dividend respects.
pub proof fn lemma_mul_div_at_most(a: nat, b: nat, c: nat, bound: nat)
    requires
        c > 0,
        a * b <= bound * c,
    ensures
        mul_div(a, b, c) <= bound,
{
    let x = a * b;
    assert(x / c <= bound) by (nonlinear_arith)
        requires
            c > 0,
            x <= bound * c,
    ;
}

/// A quotient that rounds down stays below a bound that the dividend stays below.
pub proof fn lemma_mul_div_below(a: nat, b: nat, c: nat, bound: nat)
    requires
        c > 0,
        a * b < bound * c,
    ensures
        mul_div(a, b, c) < bound,
{
    let x = a * b;
    assert(x / c < bound) by (nonlinear_arith)
        requires
            c > 0,
            x < bound * c,
    ;
}

/// A quotient that rounds down reaches every whole bound that the dividend reaches.
pub proof fn lemma_mul_div_at_least(a: nat, b: nat, c: nat, bound: nat)
    requires
        c > 0,
        a * b >= bound * c,
    ensures
        mul_div(a, b, c) >= bound,
{
    let x = a * b;
    assert(x / c >= bound) by (nonlinear_arith)
        requires
            c > 0,
            x >= bound * c,
    ;
}

/// If a quotient that rounds down reaches a bound, the dividend reaches the
/// bound times the divisor.
pub proof fn lemma_mul_div_reaches(a: nat, b: nat, c: nat, bound: nat)
    requires
        c > 0,
        mul_div(a, b, c) >= bound,
    ensures
        a * b >= bound * c,
{
    let x = a * b;
    assert(x >= bound * c) by (nonlinear_arith)
        requires
            c > 0,
            x / c >= bound,
            x >= 0,
    ;
}

/// Rounding down loses less than one unit.
pub proof fn lemma_mul_div_loss(a: nat, b: nat, c: nat)
    requires
        c > 0,
    ensures
        mul_div(a, b, c) * c <= a * b < mul_div(a, b, c) * c + c,
{
    let x = a * b;
    assert((x / c) * c <= x && x < (x / c) * c + c) by (nonlinear_arith)
        requires
            c > 0,
            x >= 0,
    ;
}

} // verus!
