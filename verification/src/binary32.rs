//! Single-precision arithmetic, carried out in integers.
//!
//! The duty-cycle table is defined by what IEEE 754 single-precision
//! arithmetic gives (round to nearest, ties to even). This module computes
//! those results exactly, without a floating-point unit.
//!
//! A quantity is a natural number of units, one unit being 2^-31. A
//! single-precision number has a significand of 24 bits, so the
//! single-precision numbers from 2^-8 upwards are those counts of units
//! that are a multiple of their own `spacing`. Below 2^-8 the model is
//! coarser than single precision: every whole count is taken as exact.

use vstd::arithmetic::div_mod::{
    lemma_div_by_multiple, lemma_div_is_ordered, lemma_div_multiples_vanish,
    lemma_fundamental_div_mod, lemma_mod_bound, lemma_mod_multiples_basic,
    lemma_multiply_divide_lt,
};
use vstd::arithmetic::mul::{lemma_mul_inequality, lemma_mul_is_commutative};
use vstd::prelude::*;

verus! {

/// The number one, in units.
pub const ONE: u64 = 0x8000_0000;

/// One half, in units.
pub const HALF: u64 = 0x4000_0000;

/// The distance between neighbouring single-precision numbers at `x`: the
/// power of two that brings `x` into 2^23 ..< 2^24 when `x` is divided by
/// it, and one unit for every `x` below 2^24.
pub open spec fn spacing(x: nat) -> nat
    decreases x,
{
    if x < 0x100_0000 {
        1
    } else {
        2 * spacing(x / 2)
    }
}

/// The multiple of `step` nearest to the fraction `num / den`; of two
/// that are equally near, the even multiple.
pub open spec fn nearest_even(num: nat, den: nat, step: nat) -> nat {
    let whole = den * step;
    let below = num / whole;
    let rest = num % whole;
    if 2 * rest < whole || (2 * rest == whole && below % 2 == 0) {
        below * step
    } else {
        (below + 1) * step
    }
}

/// The single-precision number nearest to `num / den`, ties to even.
///
/// Meant for fractions of at least 2^23 units, where the spacing of the
/// fraction is that of its whole part, and for whole counts (`den == 1`).
pub open spec fn single(num: nat, den: nat) -> nat {
    nearest_even(num, den, spacing(num / den))
}

/// A quotient is at least any factor whose product with the divisor fits
/// into the dividend.
proof fn lemma_quotient_at_least(a: int, b: int, c: int)
    requires
        0 < b,
        b * c <= a,
    ensures
        c <= a / b,
{
    lemma_div_is_ordered(b * c, a, b);
    lemma_div_multiples_vanish(c, b);
}

/// `spacing(x)` brackets `x`: from 2^24 units on, `x / spacing(x)` lies in
/// 2^23 ..< 2^24.
pub proof fn lemma_spacing_brackets(x: nat)
    ensures
        spacing(x) >= 1,
        x < 0x100_0000 ==> spacing(x) == 1,
        x >= 0x100_0000 ==> 0x80_0000 * spacing(x) <= x,
        x < 0x100_0000 * spacing(x),
    decreases x,
{
    if x >= 0x100_0000 {
        lemma_spacing_brackets(x / 2);
    }
}

/// Spacings are powers of two: a larger quantity has the same spacing or
/// at least twice it.
pub proof fn lemma_spacing_doubles(x: nat, y: nat)
    requires
        x <= y,
    ensures
        spacing(x) == spacing(y) || 2 * spacing(x) <= spacing(y),
    decreases y,
{
    if y >= 0x100_0000 {
        if x >= 0x100_0000 {
            lemma_spacing_doubles(x / 2, y / 2);
        } else {
            lemma_spacing_brackets(y / 2);
        }
    }
}

/// Rounding to a multiple of `step` moves a fraction to one of the two
/// multiples that enclose it.
pub proof fn lemma_nearest_even_encloses(num: nat, den: nat, step: nat)
    requires
        den > 0,
        step > 0,
    ensures
        (num / (den * step)) * step <= nearest_even(num, den, step) <= (num / (den * step) + 1)
            * step,
        (num / (den * step)) * step <= num / den,
{
    let whole = den * step;
    let below = num / whole;
    assert(whole > 0) by (nonlinear_arith)
        requires
            whole == den * step,
            den > 0,
            step > 0,
    ;
    assert(below * step <= (below + 1) * step) by (nonlinear_arith);
    lemma_fundamental_div_mod(num as int, whole as int);
    lemma_mod_bound(num as int, whole as int);
    assert((below * step) * den <= num) by (nonlinear_arith)
        requires
            num == whole * below + num % whole,
            0 <= num % whole,
            whole == den * step,
    ;
    lemma_mul_is_commutative((below * step) as int, den as int);
    lemma_quotient_at_least(num as int, den as int, (below * step) as int);
}

/// Rounding whole counts to multiples of one `step` keeps their order.
pub proof fn lemma_nearest_even_is_monotone(x: nat, y: nat, step: nat)
    requires
        x <= y,
        step > 0,
    ensures
        nearest_even(x, 1, step) <= nearest_even(y, 1, step),
{
    let qx = x / step;
    let qy = y / step;
    lemma_fundamental_div_mod(x as int, step as int);
    lemma_fundamental_div_mod(y as int, step as int);
    lemma_mod_bound(x as int, step as int);
    lemma_mod_bound(y as int, step as int);
    lemma_div_is_ordered(x as int, y as int, step as int);
    assert(qx * step <= (qx + 1) * step) by (nonlinear_arith);
    assert(qy * step <= (qy + 1) * step) by (nonlinear_arith);
    if qx < qy {
        lemma_mul_inequality((qx + 1) as int, qy as int, step as int);
    } else {
        assert(step * qx == step * qy);
    }
}

/// Rounding to single precision keeps the order of whole counts.
pub proof fn lemma_single_is_monotone(x: nat, y: nat)
    requires
        x <= y,
    ensures
        single(x, 1) <= single(y, 1),
{
    let sx = spacing(x);
    let sy = spacing(y);
    lemma_spacing_brackets(x);
    lemma_spacing_brackets(y);
    lemma_spacing_doubles(x, y);
    if sx == sy {
        lemma_nearest_even_is_monotone(x, y, sx);
    } else {
        // x stays below 2^24 of its steps, y has reached 2^23 of its own
        lemma_nearest_even_encloses(x, 1, sx);
        lemma_nearest_even_encloses(y, 1, sy);
        lemma_mul_is_commutative(0x100_0000, sx as int);
        lemma_multiply_divide_lt(x as int, sx as int, 0x100_0000);
        lemma_mul_inequality((x / sx + 1) as int, 0x100_0000, sx as int);
        lemma_mul_is_commutative(0x80_0000, sy as int);
        lemma_quotient_at_least(y as int, sy as int, 0x80_0000);
        lemma_mul_inequality(0x80_0000, (y / sy) as int, sy as int);
    }
}

/// Rounding goes to a nearest multiple, and to an even one on a tie: the
/// result is a multiple of `step`, it lies no further than half a step
/// from the fraction, and where it lies exactly half a step away it is an
/// even multiple.
pub proof fn lemma_nearest_even_is_nearest(num: nat, den: nat, step: nat)
    requires
        den > 0,
        step > 0,
    ensures
        nearest_even(num, den, step) % step == 0,
        2 * (nearest_even(num, den, step) * den - num) <= den * step,
        2 * (num - nearest_even(num, den, step) * den) <= den * step,
        2 * (nearest_even(num, den, step) * den - num) == den * step || 2 * (num - nearest_even(
            num,
            den,
            step,
        ) * den) == den * step ==> (nearest_even(num, den, step) / step) % 2 == 0,
{
    let whole = den * step;
    let below = num / whole;
    assert(whole > 0) by (nonlinear_arith)
        requires
            whole == den * step,
            den > 0,
            step > 0,
    ;
    lemma_fundamental_div_mod(num as int, whole as int);
    lemma_mod_bound(num as int, whole as int);
    lemma_mod_multiples_basic(below as int, step as int);
    lemma_mod_multiples_basic((below + 1) as int, step as int);
    lemma_div_by_multiple(below as int, step as int);
    lemma_div_by_multiple((below + 1) as int, step as int);
    assert((below * step) * den == whole * below && ((below + 1) * step) * den == whole * below
        + whole) by (nonlinear_arith)
        requires
            whole == den * step,
    ;
}

/// The spacing of `x`.
pub fn spacing_of(x: u64) -> (step: u64)
    ensures
        step == spacing(x as nat),
{
    let mut step: u64 = 1;
    let mut rest: u64 = x;
    while rest >= 0x100_0000
        invariant
            step >= 1,
            step * rest <= x,
            spacing(x as nat) == step * spacing(rest as nat),
        decreases rest,
    {
        proof {
            let s = spacing((rest / 2) as nat);
            assert(step * 0x100_0000 <= step * rest) by (nonlinear_arith)
                requires
                    rest >= 0x100_0000,
                    step >= 1,
            ;
            assert((2 * step) * (rest / 2) <= step * rest) by (nonlinear_arith)
                requires
                    step >= 1,
            ;
            assert(step * (2 * s) == (2 * step) * s) by (nonlinear_arith);
        }
        step = 2 * step;
        rest = rest / 2;
    }
    proof {
        assert(step * 1 == step);
    }
    step
}

/// The single-precision number nearest to `num / den`.
pub fn round_ratio(num: u64, den: u64) -> (nearest: u64)
    requires
        0 < den <= 0xFFFF,
        num <= 0xFFFF_FFFF_FFFF,
    ensures
        nearest == single(num as nat, den as nat),
        nearest <= num / den + spacing((num / den) as nat),
{
    let step = spacing_of(num / den);
    proof {
        lemma_spacing_brackets((num / den) as nat);
        lemma_nearest_even_encloses(num as nat, den as nat, step as nat);
        assert(den * step <= 0xFFFF * step) by (nonlinear_arith)
            requires
                den <= 0xFFFF,
                step >= 0,
        ;
        assert(den * step > 0) by (nonlinear_arith)
            requires
                den > 0,
                step > 0,
        ;
    }
    let whole = den * step;
    let below = num / whole;
    let rest = num % whole;
    proof {
        assert((below + 1) * step == below * step + step) by (nonlinear_arith);
    }
    if 2 * rest < whole || (2 * rest == whole && below % 2 == 0) {
        below * step
    } else {
        (below + 1) * step
    }
}

} // verus!
