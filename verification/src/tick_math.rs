//! Fixed-point derivation of a pool's initial square-root price.
//!
//! A tick index is a discrete price bucket exponent; the square-root price is
//! carried as a Q64.64 fixed-point value (an integer scaled by `2^64`). The
//! derivation must be bit-exact with the concentrated-liquidity market
//! maker's own computation, since the seeded price has to match what the pool
//! would compute internally.

use vstd::arithmetic::div_mod::{
    lemma_basic_div, lemma_div_is_ordered, lemma_div_is_ordered_by_denominator,
    lemma_div_multiples_vanish, lemma_div_nonincreasing, lemma_fundamental_div_mod,
    lemma_hoist_over_denominator, lemma_mod_division_less_than_divisor,
};
use vstd::arithmetic::mul::{
    lemma_mul_by_zero_is_zero, lemma_mul_inequality, lemma_mul_is_commutative,
    lemma_mul_left_inequality, lemma_mul_upper_bound,
};
use vstd::prelude::*;

verus! {

/// One, in the Q64.64 fixed-point scale: `2^64`.
pub const Q64: u128 = 0x10000000000000000;

/// Largest value a 128-bit square-root price can take.
pub const MAX_U128: u128 = 340282366920938463463374607431768211455;

/// Smallest tick index the price derivation accepts.
pub const MIN_TICK: i32 = -443636;

/// Largest tick index the price derivation accepts.
pub const MAX_TICK: i32 = 443636;

/// Computes `floor(val * mul_by / 2^64)` without overflowing, provided at
/// least one operand fits in 64 bits. Each operand is split into 64-bit
/// halves; the high*high partial product is zero under the precondition, so
/// only the three remaining partial products contribute to the result.
pub fn mul_right_shift(val: u128, mul_by: u128) -> (r: u128)
    requires
        val < Q64 || mul_by < Q64,
    ensures
        r == (val * mul_by) / (Q64 as int),
{
    let val_high: u128 = val / Q64;
    let val_low: u128 = val % Q64;
    let mul_high: u128 = mul_by / Q64;
    let mul_low: u128 = mul_by % Q64;
    proof {
        lemma_fundamental_div_mod(val as int, Q64 as int);
        lemma_fundamental_div_mod(mul_by as int, Q64 as int);
        lemma_mod_division_less_than_divisor(val as int, Q64 as int);
        lemma_mod_division_less_than_divisor(mul_by as int, Q64 as int);
        lemma_div_is_ordered(val as int, MAX_U128 as int, Q64 as int);
        lemma_div_is_ordered(mul_by as int, MAX_U128 as int, Q64 as int);
        lemma_mul_upper_bound(
            val_low as int,
            Q64 - 1,
            mul_low as int,
            Q64 - 1,
        );
        lemma_mul_upper_bound(
            val_high as int,
            Q64 - 1,
            mul_low as int,
            Q64 - 1,
        );
        lemma_mul_upper_bound(
            val_low as int,
            Q64 - 1,
            mul_high as int,
            Q64 - 1,
        );
    }
    let val_low_mul_low: u128 = val_low * mul_low;
    let val_high_mul_low: u128 = val_high * mul_low;
    let val_low_mul_high: u128 = val_low * mul_high;
    proof {
        lemma_div_is_ordered(val_low_mul_low as int, MAX_U128 as int, Q64 as int);
        if val < Q64 {
            lemma_basic_div(val as int, Q64 as int);
            assert(val_high == 0);
            lemma_mul_by_zero_is_zero(mul_low as int);
            lemma_mul_by_zero_is_zero(mul_high as int);
            assert(val_high * mul_low == 0);
            assert(val_high * mul_high == 0);
        } else {
            lemma_basic_div(mul_by as int, Q64 as int);
            assert(mul_high == 0);
            lemma_mul_by_zero_is_zero(val_low as int);
            lemma_mul_by_zero_is_zero(val_high as int);
            assert(val_low * mul_high == 0);
            assert(val_high * mul_high == 0);
        }
        assert(val * mul_by == (val_high * mul_low + val_low * mul_high) * (Q64 as int)
            + val_low * mul_low) by (nonlinear_arith)
            requires
                val == val_high * Q64 + val_low,
                mul_by == mul_high * Q64 + mul_low,
                val_high * mul_high == 0,
        ;
        lemma_hoist_over_denominator(
            val_low * mul_low,
            val_high * mul_low + val_low * mul_high,
            Q64 as nat,
        );
    }
    let middle_term: u128 = val_high_mul_low + val_low_mul_low / Q64;
    let result: u128 = middle_term + val_low_mul_high;
    result
}

/// Bit mask examined at step `i` of the ratio accumulation.
pub open spec fn step_mask(i: int) -> u32 {
    if i == 1 { 0x2 }
    else if i == 2 { 0x4 }
    else if i == 3 { 0x8 }
    else if i == 4 { 0x10 }
    else if i == 5 { 0x20 }
    else if i == 6 { 0x40 }
    else if i == 7 { 0x80 }
    else if i == 8 { 0x100 }
    else if i == 9 { 0x200 }
    else if i == 10 { 0x400 }
    else if i == 11 { 0x800 }
    else if i == 12 { 0x1000 }
    else if i == 13 { 0x2000 }
    else if i == 14 { 0x4000 }
    else if i == 15 { 0x8000 }
    else if i == 16 { 0x10000 }
    else if i == 17 { 0x20000 }
    else if i == 18 { 0x40000 }
    else if i == 19 { 0x80000 }
    else { 0 }
}

/// Precomputed multiplier applied at step `i`: `2^64 * 1.0001^(-2^(i-1))`,
/// rounded to an integer. The constants are fixed and must match the
/// market maker's own table exactly; they are never recomputed at runtime.
pub open spec fn step_mul(i: int) -> u128 {
    if i == 1 { 18444899583751176192 }
    else if i == 2 { 18443055278223355904 }
    else if i == 3 { 18439367220385607680 }
    else if i == 4 { 18431993317065453568 }
    else if i == 5 { 18417254355718170624 }
    else if i == 6 { 18387811781193609216 }
    else if i == 7 { 18329067761203558400 }
    else if i == 8 { 18212142134806163456 }
    else if i == 9 { 17980523815641700352 }
    else if i == 10 { 17526086738831433728 }
    else if i == 11 { 16651378430235570176 }
    else if i == 12 { 15030750278694412288 }
    else if i == 13 { 12247334978884435968 }
    else if i == 14 { 8131365268886854656 }
    else if i == 15 { 3584323654725218816 }
    else if i == 16 { 696457651848324352 }
    else if i == 17 { 26294789957507116 }
    else if i == 18 { 37481735321082 }
    else if i == 19 { 7685 }
    else { 0 }
}

/// The fixed-point ratio after the first `i` accumulation steps for the
/// absolute tick `a`: starting from `2^64` (or the odd-bit base when bit 0
/// of `a` is set), each step whose bit is set in `a` multiplies the ratio
/// by its constant and divides the product by `2^64`, rounding down.
pub open spec fn ratio_at(a: u32, i: int) -> int
    decreases i,
{
    if i <= 0 {
        if a & 0x1u32 != 0u32 { 18445821805675395072 } else { 18446744073709551616 }
    } else {
        let prev = ratio_at(a, i - 1);
        if a & step_mask(i) != 0u32 {
            (prev * step_mul(i)) / (Q64 as int)
        } else {
            prev
        }
    }
}

/// The complete fixed-point ratio for an absolute tick value.
pub open spec fn sqrt_ratio_spec(a: u32) -> int {
    ratio_at(a, 19)
}

/// Absolute value of a tick index, as the unsigned bit source of the
/// ratio accumulation.
pub open spec fn tick_abs_spec(t: i32) -> u32 {
    if t < 0 { (-t) as u32 } else { t as u32 }
}

/// The square-root price seeded for a tick: the accumulated ratio for
/// non-positive ticks, and its fixed-point reciprocal for positive ticks.
pub open spec fn tick_sqrt_price_spec(t: i32) -> int {
    if t > 0 {
        (MAX_U128 as int) / sqrt_ratio_spec(tick_abs_spec(t))
    } else {
        sqrt_ratio_spec(tick_abs_spec(t))
    }
}

/// One accumulation step keeps the ratio between a precomputed floor and
/// the fixed-point one.
proof fn lemma_ratio_step(prev: int, m: u128, lb_prev: int, lb_next: int, cur: int)
    requires
        0 < lb_next,
        lb_next <= lb_prev,
        lb_prev <= prev,
        prev <= Q64 as int,
        0 < m < Q64,
        cur == (prev * m) / (Q64 as int) || cur == prev,
        lb_next == (lb_prev * m) / (Q64 as int),
    ensures
        lb_next <= cur <= Q64 as int,
{
    if cur != prev {
        lemma_mul_inequality(lb_prev, prev, m as int);
        lemma_div_is_ordered(lb_prev * m, prev * m, Q64 as int);
        lemma_mul_left_inequality(prev, m as int, Q64 as int);
        lemma_mul_is_commutative(prev, Q64 as int);
        lemma_div_multiples_vanish(prev, Q64 as int);
        lemma_div_is_ordered(prev * m, prev * (Q64 as int), Q64 as int);
    }
}

/// Over the accepted tick range the accumulated ratio never leaves
/// `[76162531, 2^64]`; in particular it is never zero, so taking
/// its reciprocal is always possible.
pub proof fn lemma_ratio_bounds(a: u32)
    requires
        a < 0x80000u32,
    ensures
        76162531 <= sqrt_ratio_spec(a),
        sqrt_ratio_spec(a) <= Q64 as int,
{
    assert(18445821805675395072 <= ratio_at(a, 0) <= 18446744073709551616);
    assert(ratio_at(a, 1) == if a & 0x2u32 != 0u32 {
        (ratio_at(a, 0) * 18444899583751176192u128) / (Q64 as int)
    } else {
        ratio_at(a, 0)
    });
    lemma_ratio_step(ratio_at(a, 0), 18444899583751176192, 18445821805675395072, 18443977407934601305, ratio_at(a, 1));
    assert(ratio_at(a, 2) == if a & 0x4u32 != 0u32 {
        (ratio_at(a, 1) * 18443055278223355904u128) / (Q64 as int)
    } else {
        ratio_at(a, 1)
    });
    lemma_ratio_step(ratio_at(a, 1), 18443055278223355904, 18443977407934601305, 18440289165698571674, ratio_at(a, 2));
    assert(ratio_at(a, 3) == if a & 0x8u32 != 0u32 {
        (ratio_at(a, 2) * 18439367220385607680u128) / (Q64 as int)
    } else {
        ratio_at(a, 2)
    });
    lemma_ratio_step(ratio_at(a, 2), 18439367220385607680, 18440289165698571674, 18432914893692470403, ratio_at(a, 3));
    assert(ratio_at(a, 4) == if a & 0x10u32 != 0u32 {
        (ratio_at(a, 3) * 18431993317065453568u128) / (Q64 as int)
    } else {
        ratio_at(a, 3)
    });
    lemma_ratio_step(ratio_at(a, 3), 18431993317065453568, 18432914893692470403, 18418175195415540256, ratio_at(a, 4));
    assert(ratio_at(a, 5) == if a & 0x20u32 != 0u32 {
        (ratio_at(a, 4) * 18417254355718170624u128) / (Q64 as int)
    } else {
        ratio_at(a, 4)
    });
    lemma_ratio_step(ratio_at(a, 4), 18417254355718170624, 18418175195415540256, 18388731148799056322, ratio_at(a, 5));
    assert(ratio_at(a, 6) == if a & 0x40u32 != 0u32 {
        (ratio_at(a, 5) * 18387811781193609216u128) / (Q64 as int)
    } else {
        ratio_at(a, 5)
    });
    lemma_ratio_step(ratio_at(a, 5), 18387811781193609216, 18388731148799056322, 18329984191681429728, ratio_at(a, 6));
    assert(ratio_at(a, 7) == if a & 0x80u32 != 0u32 {
        (ratio_at(a, 6) * 18329067761203558400u128) / (Q64 as int)
    } else {
        ratio_at(a, 6)
    });
    lemma_ratio_step(ratio_at(a, 6), 18329067761203558400, 18329984191681429728, 18213052719148865012, ratio_at(a, 7));
    assert(ratio_at(a, 8) == if a & 0x100u32 != 0u32 {
        (ratio_at(a, 7) * 18212142134806163456u128) / (Q64 as int)
    } else {
        ratio_at(a, 7)
    });
    lemma_ratio_step(ratio_at(a, 7), 18212142134806163456, 18213052719148865012, 17981422819357952666, ratio_at(a, 8));
    assert(ratio_at(a, 9) == if a & 0x200u32 != 0u32 {
        (ratio_at(a, 8) * 17980523815641700352u128) / (Q64 as int)
    } else {
        ratio_at(a, 8)
    });
    lemma_ratio_step(ratio_at(a, 8), 17980523815641700352, 17981422819357952666, 17526963021261866635, ratio_at(a, 9));
    assert(ratio_at(a, 10) == if a & 0x400u32 != 0u32 {
        (ratio_at(a, 9) * 17526086738831433728u128) / (Q64 as int)
    } else {
        ratio_at(a, 9)
    });
    lemma_ratio_step(ratio_at(a, 9), 17526086738831433728, 17526963021261866635, 16652210978343902665, ratio_at(a, 10));
    assert(ratio_at(a, 11) == if a & 0x800u32 != 0u32 {
        (ratio_at(a, 10) * 16651378430235570176u128) / (Q64 as int)
    } else {
        ratio_at(a, 10)
    });
    lemma_ratio_step(ratio_at(a, 10), 16651378430235570176, 16652210978343902665, 15031501797420854576, ratio_at(a, 11));
    assert(ratio_at(a, 12) == if a & 0x1000u32 != 0u32 {
        (ratio_at(a, 11) * 15030750278694412288u128) / (Q64 as int)
    } else {
        ratio_at(a, 11)
    });
    lemma_ratio_step(ratio_at(a, 11), 15030750278694412288, 15031501797420854576, 12247947330324981103, ratio_at(a, 12));
    assert(ratio_at(a, 13) == if a & 0x2000u32 != 0u32 {
        (ratio_at(a, 12) * 12247334978884435968u128) / (Q64 as int)
    } else {
        ratio_at(a, 12)
    });
    lemma_ratio_step(ratio_at(a, 12), 12247334978884435968, 12247947330324981103, 8131771826986601598, ratio_at(a, 13));
    assert(ratio_at(a, 14) == if a & 0x4000u32 != 0u32 {
        (ratio_at(a, 13) * 8131365268886854656u128) / (Q64 as int)
    } else {
        ratio_at(a, 13)
    });
    lemma_ratio_step(ratio_at(a, 13), 8131365268886854656, 8131771826986601598, 3584502866427774895, ratio_at(a, 14));
    assert(ratio_at(a, 15) == if a & 0x8000u32 != 0u32 {
        (ratio_at(a, 14) * 3584323654725218816u128) / (Q64 as int)
    } else {
        ratio_at(a, 14)
    });
    lemma_ratio_step(ratio_at(a, 14), 3584323654725218816, 3584502866427774895, 696492473860388424, ratio_at(a, 15));
    assert(ratio_at(a, 16) == if a & 0x10000u32 != 0u32 {
        (ratio_at(a, 15) * 696457651848324352u128) / (Q64 as int)
    } else {
        ratio_at(a, 15)
    });
    lemma_ratio_step(ratio_at(a, 15), 696457651848324352, 696492473860388424, 26296104664138151, ratio_at(a, 16));
    assert(ratio_at(a, 17) == if a & 0x20000u32 != 0u32 {
        (ratio_at(a, 16) * 26294789957507116u128) / (Q64 as int)
    } else {
        ratio_at(a, 16)
    });
    lemma_ratio_step(ratio_at(a, 16), 26294789957507116, 26296104664138151, 37483609361155, ratio_at(a, 17));
    assert(ratio_at(a, 18) == if a & 0x40000u32 != 0u32 {
        (ratio_at(a, 17) * 37481735321082u128) / (Q64 as int)
    } else {
        ratio_at(a, 17)
    });
    lemma_ratio_step(ratio_at(a, 17), 37481735321082, 37483609361155, 76162531, ratio_at(a, 18));
    assert(a & 0x80000u32 == 0u32) by (bit_vector)
        requires a < 0x80000u32;
    assert(ratio_at(a, 19) == ratio_at(a, 18));
}

/// A zero tick sets no bit, so the ratio stays exactly `2^64`.
proof fn lemma_ratio_at_zero()
    ensures
        sqrt_ratio_spec(0u32) == Q64 as int,
{
    assert(0u32 & 0x1u32 == 0u32 &&
        0u32 & 0x2u32 == 0u32 &&
        0u32 & 0x4u32 == 0u32 &&
        0u32 & 0x8u32 == 0u32 &&
        0u32 & 0x10u32 == 0u32 &&
        0u32 & 0x20u32 == 0u32 &&
        0u32 & 0x40u32 == 0u32 &&
        0u32 & 0x80u32 == 0u32 &&
        0u32 & 0x100u32 == 0u32 &&
        0u32 & 0x200u32 == 0u32 &&
        0u32 & 0x400u32 == 0u32 &&
        0u32 & 0x800u32 == 0u32 &&
        0u32 & 0x1000u32 == 0u32 &&
        0u32 & 0x2000u32 == 0u32 &&
        0u32 & 0x4000u32 == 0u32 &&
        0u32 & 0x8000u32 == 0u32 &&
        0u32 & 0x10000u32 == 0u32 &&
        0u32 & 0x20000u32 == 0u32 &&
        0u32 & 0x40000u32 == 0u32 &&
        0u32 & 0x80000u32 == 0u32) by (bit_vector);
    assert(ratio_at(0u32, 0) == 18446744073709551616);
    assert(ratio_at(0u32, 1) == 18446744073709551616);
    assert(ratio_at(0u32, 2) == 18446744073709551616);
    assert(ratio_at(0u32, 3) == 18446744073709551616);
    assert(ratio_at(0u32, 4) == 18446744073709551616);
    assert(ratio_at(0u32, 5) == 18446744073709551616);
    assert(ratio_at(0u32, 6) == 18446744073709551616);
    assert(ratio_at(0u32, 7) == 18446744073709551616);
    assert(ratio_at(0u32, 8) == 18446744073709551616);
    assert(ratio_at(0u32, 9) == 18446744073709551616);
    assert(ratio_at(0u32, 10) == 18446744073709551616);
    assert(ratio_at(0u32, 11) == 18446744073709551616);
    assert(ratio_at(0u32, 12) == 18446744073709551616);
    assert(ratio_at(0u32, 13) == 18446744073709551616);
    assert(ratio_at(0u32, 14) == 18446744073709551616);
    assert(ratio_at(0u32, 15) == 18446744073709551616);
    assert(ratio_at(0u32, 16) == 18446744073709551616);
    assert(ratio_at(0u32, 17) == 18446744073709551616);
    assert(ratio_at(0u32, 18) == 18446744073709551616);
    assert(ratio_at(0u32, 19) == 18446744073709551616);
}

/// Derives the Q64.64 square-root price for a tick index, bit-exact with
/// the market maker's own derivation: the ratio is accumulated over the
/// bits of `|tick|` and inverted for positive ticks. The result is always
/// a positive 128-bit value.
/// Accumulation steps 1 through 7 of the ratio derivation.
fn ratio_steps_1_to_7(abs_tick: u32, ratio_in: u128) -> (r: u128)
    requires
        ratio_in == ratio_at(abs_tick, 0),
    ensures
        r == ratio_at(abs_tick, 7),
{
    let mut ratio: u128 = ratio_in;
    if abs_tick & 0x2 != 0 {
        ratio = mul_right_shift(ratio, 18444899583751176192);
    }
    proof {
        assert(ratio == ratio_at(abs_tick, 1));
    }
    if abs_tick & 0x4 != 0 {
        ratio = mul_right_shift(ratio, 18443055278223355904);
    }
    proof {
        assert(ratio == ratio_at(abs_tick, 2));
    }
    if abs_tick & 0x8 != 0 {
        ratio = mul_right_shift(ratio, 18439367220385607680);
    }
    proof {
        assert(ratio == ratio_at(abs_tick, 3));
    }
    if abs_tick & 0x10 != 0 {
        ratio = mul_right_shift(ratio, 18431993317065453568);
    }
    proof {
        assert(ratio == ratio_at(abs_tick, 4));
    }
    if abs_tick & 0x20 != 0 {
        ratio = mul_right_shift(ratio, 18417254355718170624);
    }
    proof {
        assert(ratio == ratio_at(abs_tick, 5));
    }
    if abs_tick & 0x40 != 0 {
        ratio = mul_right_shift(ratio, 18387811781193609216);
    }
    proof {
        assert(ratio == ratio_at(abs_tick, 6));
    }
    if abs_tick & 0x80 != 0 {
        ratio = mul_right_shift(ratio, 18329067761203558400);
    }
    proof {
        assert(ratio == ratio_at(abs_tick, 7));
    }
    ratio
}

/// Accumulation steps 8 through 13 of the ratio derivation.
fn ratio_steps_8_to_13(abs_tick: u32, ratio_in: u128) -> (r: u128)
    requires
        ratio_in == ratio_at(abs_tick, 7),
    ensures
        r == ratio_at(abs_tick, 13),
{
    let mut ratio: u128 = ratio_in;
    if abs_tick & 0x100 != 0 {
        ratio = mul_right_shift(ratio, 18212142134806163456);
    }
    proof {
        assert(ratio == ratio_at(abs_tick, 8));
    }
    if abs_tick & 0x200 != 0 {
        ratio = mul_right_shift(ratio, 17980523815641700352);
    }
    proof {
        assert(ratio == ratio_at(abs_tick, 9));
    }
    if abs_tick & 0x400 != 0 {
        ratio = mul_right_shift(ratio, 17526086738831433728);
    }
    proof {
        assert(ratio == ratio_at(abs_tick, 10));
    }
    if abs_tick & 0x800 != 0 {
        ratio = mul_right_shift(ratio, 16651378430235570176);
    }
    proof {
        assert(ratio == ratio_at(abs_tick, 11));
    }
    if abs_tick & 0x1000 != 0 {
        ratio = mul_right_shift(ratio, 15030750278694412288);
    }
    proof {
        assert(ratio == ratio_at(abs_tick, 12));
    }
    if abs_tick & 0x2000 != 0 {
        ratio = mul_right_shift(ratio, 12247334978884435968);
    }
    proof {
        assert(ratio == ratio_at(abs_tick, 13));
    }
    ratio
}

/// Accumulation steps 14 through 19 of the ratio derivation.
fn ratio_steps_14_to_19(abs_tick: u32, ratio_in: u128) -> (r: u128)
    requires
        ratio_in == ratio_at(abs_tick, 13),
    ensures
        r == ratio_at(abs_tick, 19),
{
    let mut ratio: u128 = ratio_in;
    if abs_tick & 0x4000 != 0 {
        ratio = mul_right_shift(ratio, 8131365268886854656);
    }
    proof {
        assert(ratio == ratio_at(abs_tick, 14));
    }
    if abs_tick & 0x8000 != 0 {
        ratio = mul_right_shift(ratio, 3584323654725218816);
    }
    proof {
        assert(ratio == ratio_at(abs_tick, 15));
    }
    if abs_tick & 0x10000 != 0 {
        ratio = mul_right_shift(ratio, 696457651848324352);
    }
    proof {
        assert(ratio == ratio_at(abs_tick, 16));
    }
    if abs_tick & 0x20000 != 0 {
        ratio = mul_right_shift(ratio, 26294789957507116);
    }
    proof {
        assert(ratio == ratio_at(abs_tick, 17));
    }
    if abs_tick & 0x40000 != 0 {
        ratio = mul_right_shift(ratio, 37481735321082);
    }
    proof {
        assert(ratio == ratio_at(abs_tick, 18));
    }
    if abs_tick & 0x80000 != 0 {
        ratio = mul_right_shift(ratio, 7685);
    }
    proof {
        assert(ratio == ratio_at(abs_tick, 19));
    }
    ratio
}

/// Derives the Q64.64 square-root price for a tick index, bit-exact with
/// the market maker's own derivation: the ratio is accumulated over the
/// bits of `|tick|` and inverted for positive ticks. The result is always
/// a positive 128-bit value.
pub fn get_sqrt_price_x64_from_tick(tick: i32) -> (r: u128)
    requires
        MIN_TICK <= tick <= MAX_TICK,
    ensures
        r == tick_sqrt_price_spec(tick),
        0 < r <= MAX_U128,
{
    let abs_tick: u32 = if tick < 0 { (-tick) as u32 } else { tick as u32 };
    proof {
        assert(abs_tick == tick_abs_spec(tick));
    }
    let mut ratio: u128 = if abs_tick & 0x1 != 0 {
        18445821805675395072
    } else {
        18446744073709551616
    };
    proof {
        assert(ratio == ratio_at(abs_tick, 0));
    }
    ratio = ratio_steps_1_to_7(abs_tick, ratio);
    ratio = ratio_steps_8_to_13(abs_tick, ratio);
    ratio = ratio_steps_14_to_19(abs_tick, ratio);
    proof {
        lemma_ratio_bounds(abs_tick);
    }
    if tick > 0 {
        proof {
            lemma_div_nonincreasing(MAX_U128 as int, ratio as int);
            lemma_div_is_ordered_by_denominator(MAX_U128 as int, ratio as int, Q64 as int);
        }
        MAX_U128 / ratio
    } else {
        ratio
    }
}

/// Reciprocal law: the prices seeded for a tick and for its negation
/// multiply back to the full 128-bit scale, up to the rounding error
/// inherent to the one fixed-point division that builds the positive side.
pub proof fn lemma_reciprocal_price_pair(t: i32, u: i32)
    requires
        MIN_TICK <= t <= MAX_TICK,
        t + u == 0,
    ensures
        MAX_U128 - Q64 < tick_sqrt_price_spec(t) * tick_sqrt_price_spec(u),
        tick_sqrt_price_spec(t) * tick_sqrt_price_spec(u) <= MAX_U128 + 1,
{
    if t == 0 {
        lemma_ratio_at_zero();
        assert(tick_abs_spec(t) == 0u32);
        assert(tick_abs_spec(u) == 0u32);
        assert((Q64 as int) * (Q64 as int) == MAX_U128 + 1);
    } else if t < 0 {
        assert(tick_abs_spec(u) == tick_abs_spec(t));
        let a = tick_abs_spec(t);
        assert(a < 0x80000u32);
        lemma_ratio_bounds(a);
        let rr = sqrt_ratio_spec(a);
        lemma_fundamental_div_mod(MAX_U128 as int, rr);
        lemma_mod_division_less_than_divisor(MAX_U128 as int, rr);
        assert(tick_sqrt_price_spec(t) * tick_sqrt_price_spec(u)
            == rr * ((MAX_U128 as int) / rr));
    } else {
        assert(tick_abs_spec(u) == tick_abs_spec(t));
        let a = tick_abs_spec(t);
        assert(a < 0x80000u32);
        lemma_ratio_bounds(a);
        let rr = sqrt_ratio_spec(a);
        lemma_fundamental_div_mod(MAX_U128 as int, rr);
        lemma_mod_division_less_than_divisor(MAX_U128 as int, rr);
        lemma_mul_is_commutative((MAX_U128 as int) / rr, rr);
        assert(tick_sqrt_price_spec(t) * tick_sqrt_price_spec(u)
            == rr * ((MAX_U128 as int) / rr));
    }
}

} // verus!
