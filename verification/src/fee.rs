//! The fee multiplier update of the relay chain runtime.
//!
//! The multiplier is a signed fixed-point number with eighteen decimals
//! (`sp_arithmetic::FixedI128`); here it travels as its inner integer, so
//! `1.0` is `FIXED_ACCURACY`. Each block the terms of
//!
//!   diff = (block_weight - target_weight) / max_weight
//!   v = 0.00004
//!   weight * (1 + v * diff + (v * diff)^2 / 2)
//!
//! are added to the multiplier itself, not multiplied into it: at or above the
//! target it rises by `v * |diff| + (v * diff)^2 / 2`, below the target it falls
//! by `v * |diff| - (v * diff)^2 / 2`, and then never below `-1`.

use vstd::prelude::*;
use crate::xcm::Weight;

verus! {

/// The inner value of the fixed-point number `1`.
pub const FIXED_ACCURACY: i128 = 1_000_000_000_000_000_000;

/// The number of parts of a whole in a `Perquintill`.
pub const PERQUINTILL_ACCURACY: u64 = 1_000_000_000_000_000_000;

/// The inner value of `FixedI128::saturating_from_rational(n, d)`.
pub uninterp spec fn fixed_from_rational(n: u128, d: u128) -> i128;

/// The inner value of `FixedI128::saturating_mul` on two inner values.
pub uninterp spec fn fixed_mul(a: i128, b: i128) -> i128;

/// `x` clamped into the range of `i128`.
pub open spec fn saturate_i128(x: int) -> i128 {
    if x > i128::MAX {
        i128::MAX
    } else if x < i128::MIN {
        i128::MIN
    } else {
        x as i128
    }
}

/// `parts` per quintillion of `x`, the whole part exact and the fraction
/// rounded to the nearest integer, an exact half rounded down.
pub open spec fn perquintill_of(parts: u64, x: u64) -> int {
    let p: int = if parts <= PERQUINTILL_ACCURACY { parts as int } else { PERQUINTILL_ACCURACY as int };
    let acc: int = PERQUINTILL_ACCURACY as int;
    let rem_mul: int = (x as int % acc) * p;
    (x as int / acc) * p + rem_mul / acc + (if rem_mul % acc > acc / 2 { 1int } else { 0int })
}

/// Calls `FixedI128::saturating_from_rational(n, d)`, which panics on a zero
/// divisor. The quotient of two non-negative numbers is non-negative (a result
/// out of range saturates to the maximum), and zero over anything is zero.
/// Where `n` times the accuracy fits in an `i128`, `multiply_by_rational` takes
/// its exact path and the result is that product divided by `d`, rounded down;
/// elsewhere the rounding is not stated, it is named.
#[verifier::external_body]
fn fixed_i128_from_rational(n: u128, d: u128) -> (r: i128)
    requires
        d != 0,
    ensures
        r == fixed_from_rational(n, d),
        r >= 0,
        n == 0 ==> r == 0,
        n * FIXED_ACCURACY <= i128::MAX ==> r == (n * FIXED_ACCURACY) / (d as int),
{
    sp_arithmetic::FixedPointNumber::into_inner(
        <sp_arithmetic::FixedI128 as sp_arithmetic::FixedPointNumber>::saturating_from_rational(n, d),
    )
}

/// Calls `Saturating::saturating_mul` on two `FixedI128`. A factor of zero
/// gives zero, and two non-negative factors give a non-negative product (an
/// overflow saturates to the maximum). Where two non-negative inner values
/// have a product that fits in a `u128`, `multiply_by_rational` takes its exact
/// path and the result is that product divided by the accuracy, rounded down;
/// elsewhere the rounding is not stated, it is named.
#[verifier::external_body]
fn fixed_i128_saturating_mul(a: i128, b: i128) -> (r: i128)
    ensures
        r == fixed_mul(a, b),
        a == 0 || b == 0 ==> r == 0,
        a >= 0 && b >= 0 ==> r >= 0,
        a >= 0 && b >= 0 && a * b <= u128::MAX ==> r == (a * b) / (FIXED_ACCURACY as int),
{
    sp_arithmetic::FixedPointNumber::into_inner(
        sp_arithmetic::traits::Saturating::saturating_mul(
            sp_arithmetic::FixedI128::from_inner(a),
            sp_arithmetic::FixedI128::from_inner(b),
        ),
    )
}

/// Calls `Saturating::saturating_add` on two `FixedI128`: the inner values
/// are added, saturating at the bounds of `i128`.
#[verifier::external_body]
fn fixed_i128_saturating_add(a: i128, b: i128) -> (r: i128)
    ensures
        r == saturate_i128(a + b),
{
    sp_arithmetic::FixedPointNumber::into_inner(
        sp_arithmetic::traits::Saturating::saturating_add(
            sp_arithmetic::FixedI128::from_inner(a),
            sp_arithmetic::FixedI128::from_inner(b),
        ),
    )
}

/// Calls `Saturating::saturating_sub` on two `FixedI128`: the inner values
/// are subtracted, saturating at the bounds of `i128`.
#[verifier::external_body]
fn fixed_i128_saturating_sub(a: i128, b: i128) -> (r: i128)
    ensures
        r == saturate_i128(a - b),
{
    sp_arithmetic::FixedPointNumber::into_inner(
        sp_arithmetic::traits::Saturating::saturating_sub(
            sp_arithmetic::FixedI128::from_inner(a),
            sp_arithmetic::FixedI128::from_inner(b),
        ),
    )
}

/// Calls `FixedI128::saturating_from_integer(n)`: `n` times the accuracy,
/// saturating at the bounds of `i128`.
#[verifier::external_body]
fn fixed_i128_from_integer(n: i128) -> (r: i128)
    ensures
        r == saturate_i128(n * FIXED_ACCURACY),
{
    sp_arithmetic::FixedPointNumber::into_inner(
        <sp_arithmetic::FixedI128 as sp_arithmetic::FixedPointNumber>::saturating_from_integer(n),
    )
}

/// Calls `Ord::max` on two `FixedI128`, whose order is that of their inner values.
#[verifier::external_body]
fn fixed_i128_max(a: i128, b: i128) -> (r: i128)
    ensures
        r == (if a >= b { a } else { b }),
{
    sp_arithmetic::FixedPointNumber::into_inner(
        sp_arithmetic::FixedI128::from_inner(a).max(sp_arithmetic::FixedI128::from_inner(b)),
    )
}

/// Calls `Perquintill::from_parts(parts) * x`: `from_parts` clamps `parts` to
/// a whole, and the product is taken as `perquintill_of` states.
#[verifier::external_body]
fn perquintill_mul(parts: u64, x: u64) -> (r: u64)
    ensures
        r as int == perquintill_of(parts, x),
{
    <sp_arithmetic::Perquintill as sp_arithmetic::PerThing>::from_parts(parts) * x
}

/// The block weight that counts: no more than the maximum.
pub open spec fn counted_weight(block_weight: Weight, max_weight: Weight) -> u128 {
    if block_weight <= max_weight { block_weight as u128 } else { max_weight as u128 }
}

/// The weight that the chain aims at: `target` parts per quintillion of the maximum.
pub open spec fn target_weight(max_weight: Weight, target: u64) -> u128 {
    perquintill_of(target, max_weight) as u128
}

/// The distance of the counted block weight from the target, as a fraction of
/// the maximum weight (of one, where the maximum is zero).
pub open spec fn weight_diff(block_weight: Weight, max_weight: Weight, target: u64) -> i128 {
    let b = counted_weight(block_weight, max_weight);
    let t = target_weight(max_weight, target);
    let diff_abs: u128 = if b >= t { (b - t) as u128 } else { (t - b) as u128 };
    fixed_from_rational(diff_abs, if max_weight >= 1 { max_weight as u128 } else { 1u128 })
}

/// `v * diff`, with `v = 0.00004`.
pub open spec fn first_term(diff: i128) -> i128 {
    fixed_mul(fixed_from_rational(4, 100_000), diff)
}

/// `(v * diff)^2 / 2`, computed as `0.0000000008 * diff^2`.
pub open spec fn second_term(diff: i128) -> i128 {
    fixed_mul(fixed_from_rational(8, 10_000_000_000), fixed_mul(diff, diff))
}

/// The multiplier moved by the two terms: raised by both while the chain is
/// congested, lowered by their difference otherwise, but then never below `-1`.
pub open spec fn adjusted(multiplier: i128, congested: bool, first: i128, second: i128) -> i128 {
    if congested {
        saturate_i128(multiplier + saturate_i128(first + second))
    } else {
        let lowered = saturate_i128(multiplier - saturate_i128(first - second));
        if lowered >= -FIXED_ACCURACY { lowered } else { (-FIXED_ACCURACY) as i128 }
    }
}

/// The next fee multiplier for a block of `block_weight`.
pub open spec fn next_multiplier(multiplier: i128, block_weight: Weight, max_weight: Weight, target: u64) -> i128 {
    let diff = weight_diff(block_weight, max_weight, target);
    adjusted(
        multiplier,
        counted_weight(block_weight, max_weight) >= target_weight(max_weight, target),
        first_term(diff),
        second_term(diff),
    )
}

/// On a congested chain the multiplier, whatever its sign, rises by both terms:
/// by exactly their sum while that fits, and otherwise up to the largest value.
pub proof fn lemma_congested_adds_terms(multiplier: i128, first: i128, second: i128)
    requires
        first >= 0,
        second >= 0,
        first + second <= i128::MAX,
    ensures
        adjusted(multiplier, true, first, second) >= multiplier,
        multiplier + first + second <= i128::MAX ==> adjusted(multiplier, true, first, second) == multiplier + first
            + second,
        multiplier + first + second > i128::MAX ==> adjusted(multiplier, true, first, second) == i128::MAX,
        first + second > 0 && multiplier < i128::MAX ==> adjusted(multiplier, true, first, second) > multiplier,
{
}

/// Below the target the multiplier falls by the first term less the second, but
/// stops at `-1`: it is the larger of `-1` and the lowered value.
pub proof fn lemma_uncongested_subtracts_terms(multiplier: i128, first: i128, second: i128)
    requires
        0 <= second <= first,
    ensures
        adjusted(multiplier, false, first, second) == (if multiplier - (first - second) >= -FIXED_ACCURACY {
            multiplier - (first - second)
        } else {
            -FIXED_ACCURACY
        }),
        adjusted(multiplier, false, first, second) >= -FIXED_ACCURACY,
{
}

/// The distance of the counted block weight from the target over the maximum
/// weight, as an inner fixed-point value rounded down.
pub open spec fn exact_diff(block_weight: Weight, max_weight: Weight, target: u64) -> int {
    let b = counted_weight(block_weight, max_weight) as int;
    let t = target_weight(max_weight, target) as int;
    let diff_abs: int = if b >= t { b - t } else { t - b };
    diff_abs * FIXED_ACCURACY / (if max_weight >= 1 { max_weight as int } else { 1int })
}

/// `v * diff` for the exact `diff`, rounded down.
pub open spec fn exact_first_term(diff: int) -> int {
    V_INNER * diff / (FIXED_ACCURACY as int)
}

/// `0.0000000008 * diff^2` for the exact `diff`, each product rounded down.
pub open spec fn exact_second_term(diff: int) -> int {
    V_SQUARED_HALF_INNER * (diff * diff / (FIXED_ACCURACY as int)) / (FIXED_ACCURACY as int)
}

/// `v = 0.00004` as an inner value.
pub const V_INNER: i128 = 40_000_000_000_000;

/// `v^2 / 2 = 0.0000000008` as an inner value.
pub const V_SQUARED_HALF_INNER: i128 = 800_000_000;

/// `parts` per quintillion of `x` is at most `x`.
pub proof fn lemma_perquintill_at_most_whole(parts: u64, x: u64)
    ensures
        0 <= perquintill_of(parts, x) <= x,
{
    let p: int = if parts <= PERQUINTILL_ACCURACY { parts as int } else { PERQUINTILL_ACCURACY as int };
    let acc: int = PERQUINTILL_ACCURACY as int;
    let q: int = x as int / acc;
    let rem: int = x as int % acc;
    let rem_mul: int = rem * p;
    assert(x as int == q * acc + rem && 0 <= rem < acc && q >= 0) by {
        vstd::arithmetic::div_mod::lemma_fundamental_div_mod(x as int, acc);
    }
    assert(0 <= rem_mul <= rem * acc) by (nonlinear_arith)
        requires
            0 <= p <= acc,
            0 <= rem,
            rem_mul == rem * p,
    ;
    assert(0 <= rem_mul / acc <= rem) by (nonlinear_arith)
        requires
            0 <= rem_mul <= rem * acc,
            acc > 0,
            0 <= rem,
    ;
    assert(q * p <= q * acc && q * p >= 0) by (nonlinear_arith)
        requires
            0 <= p <= acc,
            q >= 0,
    ;
    if rem_mul % acc > acc / 2 {
        assert(rem_mul / acc < rem) by (nonlinear_arith)
            requires
                0 <= rem_mul <= rem * acc,
                acc > 0,
                rem_mul % acc > 0,
                rem_mul / acc <= rem,
        {
            if rem_mul / acc == rem {
                assert(rem_mul == acc * (rem_mul / acc) + rem_mul % acc);
            }
        }
    }
}

/// Updates the fee multiplier after each block from how full the block was.
pub struct TargetedFeeAdjustment;

impl TargetedFeeAdjustment {
    /// Moves `multiplier` by the two terms of the update, `v * diff` and
    /// `(v * diff)^2 / 2` as inner fixed-point values: up by both when the chain
    /// is `congested`, otherwise down by their difference but not below `-1`.
    pub fn adjust(multiplier: i128, congested: bool, first_term: i128, second_term: i128) -> (next: i128)
        ensures
            next == adjusted(multiplier, congested, first_term, second_term),
            // congested: up by both terms, whatever the multiplier's sign
            congested && first_term >= 0 && second_term >= 0 && first_term + second_term <= i128::MAX && multiplier
                + first_term + second_term <= i128::MAX ==> next == multiplier + first_term + second_term,
            // not congested: down by their difference, but never below -1
            !congested && 0 <= second_term <= first_term ==> next == (if multiplier - (first_term - second_term)
                >= -FIXED_ACCURACY {
                multiplier - (first_term - second_term)
            } else {
                -FIXED_ACCURACY as int
            }),
    {
        proof {
            if congested && first_term >= 0 && second_term >= 0 && first_term + second_term <= i128::MAX {
                lemma_congested_adds_terms(multiplier, first_term, second_term);
            }
            if !congested && 0 <= second_term <= first_term {
                lemma_uncongested_subtracts_terms(multiplier, first_term, second_term);
            }
        }
        if congested {
            let excess = fixed_i128_saturating_add(first_term, second_term);
            fixed_i128_saturating_add(multiplier, excess)
        } else {
            // Defensive-only: first_term > second_term. Safe subtraction.
            let negative = fixed_i128_saturating_sub(first_term, second_term);
            let lowered = fixed_i128_saturating_sub(multiplier, negative);
            // While at -1 the network is so un-congested that transactions pay no
            // weight fee; the multiplier stops there and only rises again.
            fixed_i128_max(lowered, fixed_i128_from_integer(-1))
        }
    }

    /// The multiplier for the next block, from the current `multiplier`, the
    /// weight of this block, the maximum block weight and the target fullness
    /// (`target` parts per quintillion of the maximum).
    pub fn convert(multiplier: i128, block_weight: Weight, max_weight: Weight, target: u64) -> (next: i128)
        ensures
            next == next_multiplier(multiplier, block_weight, max_weight, target),
            // the update in plain integers: every product that it takes stays exact
            next == adjusted(
                multiplier,
                counted_weight(block_weight, max_weight) >= target_weight(max_weight, target),
                exact_first_term(exact_diff(block_weight, max_weight, target)) as i128,
                exact_second_term(exact_diff(block_weight, max_weight, target)) as i128,
            ),
            // at or above the target the multiplier, whatever its sign, rises by
            // both exact terms, saturating at the largest value
            counted_weight(block_weight, max_weight) >= target_weight(max_weight, target) ==> next == (if multiplier
                + exact_first_term(exact_diff(block_weight, max_weight, target)) + exact_second_term(
                exact_diff(block_weight, max_weight, target),
            ) <= i128::MAX {
                multiplier + exact_first_term(exact_diff(block_weight, max_weight, target)) + exact_second_term(
                    exact_diff(block_weight, max_weight, target),
                )
            } else {
                i128::MAX as int
            }),
            // below the target it falls by the first exact term less the second,
            // but never below -1
            counted_weight(block_weight, max_weight) < target_weight(max_weight, target) ==> next == (if multiplier
                - exact_first_term(exact_diff(block_weight, max_weight, target)) + exact_second_term(
                exact_diff(block_weight, max_weight, target),
            ) >= -FIXED_ACCURACY {
                multiplier - exact_first_term(exact_diff(block_weight, max_weight, target)) + exact_second_term(
                    exact_diff(block_weight, max_weight, target),
                )
            } else {
                -FIXED_ACCURACY as int
            }),
            // a block at or above the target never lowers the multiplier, and
            // raises it by at most v + v^2 / 2
            counted_weight(block_weight, max_weight) >= target_weight(max_weight, target) ==> multiplier <= next
                <= multiplier + V_INNER + V_SQUARED_HALF_INNER,
            // a block exactly at the target leaves it as it was
            counted_weight(block_weight, max_weight) == target_weight(max_weight, target) ==> next == multiplier,
            // a block below the target never raises it (beyond lifting it to -1),
            // lowers it by at most v, and never brings it below -1
            counted_weight(block_weight, max_weight) < target_weight(max_weight, target) ==> {
                &&& next <= (if multiplier >= -FIXED_ACCURACY { multiplier as int } else { -FIXED_ACCURACY })
                &&& next >= multiplier - V_INNER
                &&& next >= -FIXED_ACCURACY
            },
    {
        let block_weight = if block_weight <= max_weight { block_weight } else { max_weight };
        let target_weight: u128 = perquintill_mul(target, max_weight) as u128;
        let block_weight: u128 = block_weight as u128;
        proof {
            lemma_perquintill_at_most_whole(target, max_weight);
        }

        // determines if the first_term is positive
        let positive = block_weight >= target_weight;
        let diff_abs: u128 = if positive { block_weight - target_weight } else { target_weight - block_weight };
        let divisor: u64 = if max_weight >= 1 { max_weight } else { 1 };
        assert(diff_abs <= divisor);
        assert(diff_abs * FIXED_ACCURACY <= i128::MAX) by (nonlinear_arith)
            requires
                diff_abs <= divisor,
                divisor <= u64::MAX,
        ;
        let diff = fixed_i128_from_rational(diff_abs, divisor as u128);
        assert(0 <= diff <= FIXED_ACCURACY) by (nonlinear_arith)
            requires
                diff == (diff_abs * FIXED_ACCURACY) / (divisor as int),
                diff_abs <= divisor,
                divisor >= 1,
        ;
        assert(diff * diff <= u128::MAX) by (nonlinear_arith)
            requires
                0 <= diff <= FIXED_ACCURACY,
        ;
        let diff_squared = fixed_i128_saturating_mul(diff, diff);
        assert(0 <= diff_squared <= diff) by (nonlinear_arith)
            requires
                diff_squared == (diff * diff) / (FIXED_ACCURACY as int),
                0 <= diff <= FIXED_ACCURACY,
        ;

        // 0.00004 = 4/100_000 = 40_000/10^9
        let v = fixed_i128_from_rational(4, 100_000);
        // 0.00004^2 = 16/10^10 Taking the future /2 into account... 8/10^10
        let v_squared_2 = fixed_i128_from_rational(8, 10_000_000_000);
        assert(v == V_INNER);
        assert(v_squared_2 == V_SQUARED_HALF_INNER);

        assert(v * diff <= u128::MAX) by (nonlinear_arith)
            requires
                v == V_INNER,
                0 <= diff <= FIXED_ACCURACY,
        ;
        assert(v_squared_2 * diff_squared <= u128::MAX) by (nonlinear_arith)
            requires
                v_squared_2 == V_SQUARED_HALF_INNER,
                0 <= diff_squared <= FIXED_ACCURACY,
        ;
        let first_term = fixed_i128_saturating_mul(v, diff);
        let second_term = fixed_i128_saturating_mul(v_squared_2, diff_squared);
        assert(0 <= second_term <= first_term <= V_INNER && second_term <= V_SQUARED_HALF_INNER) by (nonlinear_arith)
            requires
                first_term == (V_INNER * diff) / (FIXED_ACCURACY as int),
                second_term == (V_SQUARED_HALF_INNER * diff_squared) / (FIXED_ACCURACY as int),
                0 <= diff_squared <= diff <= FIXED_ACCURACY,
        ;
        proof {
            if positive {
                lemma_congested_adds_terms(multiplier, first_term, second_term);
            } else {
                lemma_uncongested_subtracts_terms(multiplier, first_term, second_term);
            }
        }
        Self::adjust(multiplier, positive, first_term, second_term)
    }
}

/// Only the part of a block's weight up to the maximum counts: a heavier block
/// moves the multiplier as a block of exactly the maximum weight does.
pub proof fn lemma_weight_counted_up_to_max(multiplier: i128, block_weight: Weight, max_weight: Weight, target: u64)
    requires
        block_weight >= max_weight,
    ensures
        next_multiplier(multiplier, block_weight, max_weight, target) == next_multiplier(
            multiplier,
            max_weight,
            max_weight,
            target,
        ),
{
}

} // verus!
