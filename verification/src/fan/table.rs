//! Compiling a curve into the duty-cycle table.
//!
//! The table has one entry for each whole temperature from 0 to 255
//! degrees. One sweep over the temperatures fills it, with a cursor into
//! the curve that moves on by at most one point per temperature: below the
//! first point the table is flat, past the last point it is flat, and in
//! between it follows a ramp computed in single precision.
//!
//! A curve needs at least one point. It is neither sorted nor asked to be
//! sorted: the sweep takes the points in the order they stand in, and the
//! table is defined for every such order. What the table looks like on a
//! curve whose temperatures ascend is stated by the lemmas at the end.

use super::controlled::ControlledFan;
use super::curve::{ascending, Curve};
use crate::binary32::{
    lemma_single_is_monotone, lemma_spacing_brackets, round_ratio, single, HALF, ONE,
};
use vstd::arithmetic::div_mod::{lemma_div_is_ordered, lemma_div_multiples_vanish};
use vstd::arithmetic::mul::lemma_mul_inequality;
use vstd::prelude::*;

verus! {

/// The distance between two bytes.
pub open spec fn gap(a: u8, b: u8) -> nat {
    if a < b {
        (b - a) as nat
    } else {
        (a - b) as nat
    }
}

/// The cursor after the sweep has reached `index`: the number of points
/// that the sweep has passed. At each temperature it passes the point it
/// stands on if that point lies below the temperature, and no second one.
pub open spec fn cursor(curve: Seq<Curve>, index: nat) -> nat
    decreases index,
{
    if index == 0 {
        0
    } else {
        let before = cursor(curve, (index - 1) as nat);
        if before < curve.len() && curve[before as int].temperature < index {
            before + 1
        } else {
            before
        }
    }
}

/// The entry at `index` on the ramp from the point `lo`, which the sweep
/// has passed, to the point `hi`, which it has not.
///
/// With `slope` the single-precision quotient of the difference in
/// percentage by the difference in temperature, the entry is
/// `slope * index - lo.temperature`, each operation rounded to single
/// precision, then rounded to the nearest whole number (halves away from
/// zero) and held to 0 ..= 255. A negative or zero slope therefore gives
/// 0 everywhere. Two points at one temperature give an infinite slope: 255
/// where the percentage falls from `lo` to `hi`, 0 otherwise.
pub open spec fn ramp(lo: Curve, hi: Curve, index: nat) -> nat {
    let rise = gap(lo.percentage, hi.percentage);
    let run = gap(lo.temperature, hi.temperature);
    if run == 0 {
        if lo.percentage > hi.percentage && index > 0 {
            255
        } else {
            0
        }
    } else if rise == 0 || (lo.percentage < hi.percentage) != (lo.temperature < hi.temperature) {
        0
    } else {
        let slope = single(rise * (ONE as nat), run);
        let product = single(slope * index, 1);
        let offset = lo.temperature as nat * (ONE as nat);
        if product <= offset {
            0
        } else {
            let nearest = (single((product - offset) as nat, 1) + HALF as nat) / (ONE as nat);
            if nearest > 255 {
                255
            } else {
                nearest
            }
        }
    }
}

/// Every slope that a ramp rounds lies where `single` is meant for
/// fractions: a difference in percentage of at least one, over a
/// difference in temperature of at most 255, comes to at least 2^23 units.
pub proof fn lemma_slope_is_in_range(rise: nat, run: nat)
    requires
        1 <= rise,
        1 <= run <= 255,
    ensures
        (rise * (ONE as nat)) / run >= 0x80_0000,
{
    let scaled = rise * (ONE as nat);
    assert(run * 0x80_0000 <= scaled) by (nonlinear_arith)
        requires
            scaled == rise * 0x8000_0000,
            1 <= rise,
            1 <= run <= 255,
    ;
    lemma_div_is_ordered((run * 0x80_0000) as int, scaled as int, run as int);
    lemma_div_multiples_vanish(0x80_0000, run as int);
}

/// The table entry for the temperature `index`.
pub open spec fn duty_at(curve: Seq<Curve>, index: nat) -> nat {
    let passed = cursor(curve, index);
    if passed == 0 {
        curve.first().percentage as nat
    } else if passed >= curve.len() {
        curve.last().percentage as nat
    } else {
        ramp(curve[passed - 1], curve[passed as int], index)
    }
}

/// The duty-cycle table of a curve.
pub open spec fn compiled(curve: Seq<Curve>) -> Seq<u8> {
    Seq::new(256, |index: int| duty_at(curve, index as nat) as u8)
}

/// The entry at `index` on the ramp from `lo` to `hi`.
pub fn ramp_entry(lo: Curve, hi: Curve, index: u8) -> (duty: u8)
    ensures
        duty == ramp(lo, hi, index as nat),
{
    if lo.temperature == hi.temperature {
        return if lo.percentage > hi.percentage && index > 0 {
            255
        } else {
            0
        };
    }
    let rising = lo.percentage < hi.percentage;
    let forward = lo.temperature < hi.temperature;
    if lo.percentage == hi.percentage || rising != forward {
        return 0;
    }
    let rise: u64 = if rising {
        (hi.percentage - lo.percentage) as u64
    } else {
        (lo.percentage - hi.percentage) as u64
    };
    let run: u64 = if forward {
        (hi.temperature - lo.temperature) as u64
    } else {
        (lo.temperature - hi.temperature) as u64
    };
    let scaled = rise * ONE;
    let slope = round_ratio(scaled, run);
    proof {
        lemma_spacing_brackets((scaled / run) as nat);
        assert(scaled / run <= scaled) by (nonlinear_arith)
            requires
                run >= 1,
        ;
        assert(slope * index <= 0x100_0000_0000 * 255) by (nonlinear_arith)
            requires
                slope <= 0x100_0000_0000,
                index <= 255,
        ;
    }
    let product = round_ratio(slope * (index as u64), 1);
    proof {
        lemma_spacing_brackets((slope * index) as nat);
    }
    let offset = (lo.temperature as u64) * ONE;
    if product <= offset {
        return 0;
    }
    let above = round_ratio(product - offset, 1);
    proof {
        lemma_spacing_brackets((product - offset) as nat);
    }
    let nearest = (above + HALF) / ONE;
    if nearest > 255 {
        255
    } else {
        nearest as u8
    }
}

impl ControlledFan {
    /// Compiles a curve into its duty-cycle table.
    ///
    /// The table is a function of the curve alone: compiling the same
    /// curve again gives the same table.
    pub fn generate_lut(curve: &Vec<Curve>) -> (lut: [u8; 256])
        requires
            curve@.len() > 0,
        ensures
            lut@ == compiled(curve@),
    {
        let mut lut: [u8; 256] = [0u8; 256];
        let mut passed: usize = 0;
        let mut index: usize = 0;
        while index < 256
            invariant
                index <= 256,
                curve@.len() > 0,
                passed <= curve@.len(),
                index > 0 ==> passed == cursor(curve@, (index - 1) as nat),
                index == 0 ==> passed == 0,
                forall|k: int| 0 <= k < index ==> lut@[k] == duty_at(curve@, k as nat) as u8,
            decreases 256 - index,
        {
            if passed < curve.len() && (curve[passed].temperature as usize) < index {
                passed += 1;
            }
            assert(passed == cursor(curve@, index as nat));
            let duty = if passed == 0 {
                curve[0].percentage
            } else if passed >= curve.len() {
                curve[curve.len() - 1].percentage
            } else {
                ramp_entry(curve[passed - 1], curve[passed], index as u8)
            };
            lut[index] = duty;
            index += 1;
        }
        assert(lut@ =~= compiled(curve@));
        lut
    }
}

/// The cursor never leaves the curve.
pub proof fn lemma_cursor_is_bounded(curve: Seq<Curve>, index: nat)
    ensures
        cursor(curve, index) <= curve.len(),
        cursor(curve, index) <= index,
    decreases index,
{
    if index > 0 {
        lemma_cursor_is_bounded(curve, (index - 1) as nat);
    }
}

/// On a curve of ascending temperatures the cursor at `index` is the
/// number of points below `index`: every point before it lies below, and
/// the point it stands on does not.
pub proof fn lemma_cursor_counts_points_below(curve: Seq<Curve>, index: nat)
    requires
        ascending(curve),
    ensures
        cursor(curve, index) <= curve.len(),
        forall|k: int| 0 <= k < cursor(curve, index) ==> curve[k].temperature < index,
        cursor(curve, index) < curve.len() ==> curve[cursor(curve, index) as int].temperature
            >= index,
    decreases index,
{
    if index > 0 {
        lemma_cursor_counts_points_below(curve, (index - 1) as nat);
    }
}

/// A curve of a single point compiles to a flat table: every entry is
/// that point's percentage.
pub proof fn lemma_single_point_is_flat(curve: Seq<Curve>, index: nat)
    requires
        curve.len() == 1,
        index < 256,
    ensures
        compiled(curve)[index as int] == curve[0].percentage,
{
    lemma_cursor_is_bounded(curve, index);
}

/// Flat below: up to the temperature of the first point, the table holds
/// the first point's percentage, whatever the order of the points.
pub proof fn lemma_flat_below_first_point(curve: Seq<Curve>, index: nat)
    requires
        curve.len() > 0,
        index <= curve.first().temperature,
    ensures
        compiled(curve)[index as int] == curve.first().percentage,
{
    lemma_cursor_stays_before_first_point(curve, index);
}

/// The cursor does not move before the sweep has gone past the first
/// point.
pub proof fn lemma_cursor_stays_before_first_point(curve: Seq<Curve>, index: nat)
    requires
        curve.len() > 0,
        index <= curve.first().temperature,
    ensures
        cursor(curve, index) == 0,
    decreases index,
{
    if index > 0 {
        lemma_cursor_stays_before_first_point(curve, (index - 1) as nat);
    }
}

/// Flat above: on a curve of ascending temperatures, the table holds the
/// last point's percentage at every temperature above the last point.
pub proof fn lemma_flat_above_last_point(curve: Seq<Curve>, index: nat)
    requires
        curve.len() > 0,
        ascending(curve),
        curve.last().temperature < index < 256,
    ensures
        compiled(curve)[index as int] == curve.last().percentage,
{
    lemma_cursor_counts_points_below(curve, index);
}

/// Between two neighbouring points of a curve of ascending temperatures
/// the table is the ramp from the lower to the upper point. The upper
/// point's own temperature is still on that ramp.
pub proof fn lemma_ramp_between_points(curve: Seq<Curve>, upper: int, index: nat)
    requires
        ascending(curve),
        0 < upper < curve.len(),
        curve[upper - 1].temperature < index <= curve[upper].temperature,
    ensures
        cursor(curve, index) == upper,
        compiled(curve)[index as int] == ramp(curve[upper - 1], curve[upper], index),
{
    lemma_cursor_counts_points_below(curve, index);
    let passed = cursor(curve, index) as int;
    if passed < upper {
        assert(curve[passed].temperature <= curve[upper - 1].temperature);
    }
}

/// A ramp that does not fall never steps down: where the temperature
/// rises from `lo` to `hi` and the percentage does not fall, a higher
/// temperature has no smaller entry.
pub proof fn lemma_ramp_is_monotone(lo: Curve, hi: Curve, index: nat, later: nat)
    requires
        lo.temperature < hi.temperature,
        lo.percentage <= hi.percentage,
        index <= later,
    ensures
        ramp(lo, hi, index) <= ramp(lo, hi, later),
{
    let rise = gap(lo.percentage, hi.percentage);
    let run = gap(lo.temperature, hi.temperature);
    if rise > 0 {
        let one = ONE as nat;
        let slope = single(rise * one, run);
        let offset = lo.temperature as nat * one;
        lemma_mul_inequality(index as int, later as int, slope as int);
        assert(slope * index == index * slope && slope * later == later * slope)
            by (nonlinear_arith);
        lemma_single_is_monotone(slope * index, slope * later);
        let first = single(slope * index, 1);
        let second = single(slope * later, 1);
        if first > offset {
            let low = (first - offset) as nat;
            let high = (second - offset) as nat;
            lemma_single_is_monotone(low, high);
            lemma_div_is_ordered(
                (single(low, 1) + HALF) as int,
                (single(high, 1) + HALF) as int,
                ONE as int,
            );
        }
    }
}

/// Between two neighbouring points of a curve of ascending temperatures
/// whose percentages do not fall, the table does not fall either.
pub proof fn lemma_table_rises_between_points(
    curve: Seq<Curve>,
    upper: int,
    index: nat,
    later: nat,
)
    requires
        ascending(curve),
        0 < upper < curve.len(),
        curve[upper - 1].percentage <= curve[upper].percentage,
        curve[upper - 1].temperature < index <= later <= curve[upper].temperature,
    ensures
        compiled(curve)[index as int] <= compiled(curve)[later as int],
{
    lemma_ramp_between_points(curve, upper, index);
    lemma_ramp_between_points(curve, upper, later);
    lemma_ramp_is_monotone(curve[upper - 1], curve[upper], index, later);
}

} // verus!
