use token_launchpad::tick_math::{get_sqrt_price_x64_from_tick, mul_right_shift, MAX_TICK, MIN_TICK};

const MAX_U128: u128 = 340282366920938463463374607431768211455;
const Q64: u128 = 1 << 64;

/// Exact `floor(a * b / 2^64)` over 64-bit limbs, kept entirely in exact
/// integer arithmetic, as an independent reference for `mul_right_shift`.
fn mul_shift_reference(a: u128, b: u128) -> u128 {
    let (ah, al) = (a >> 64, a & 0xFFFF_FFFF_FFFF_FFFF);
    let (bh, bl) = (b >> 64, b & 0xFFFF_FFFF_FFFF_FFFF);
    assert!(ah == 0 || bh == 0, "reference only covers one wide operand");
    // a*b = ah*bl*2^64 + al*bh*2^64 + al*bl  (ah*bh == 0)
    // floor(a*b / 2^64) = ah*bl + al*bh + floor(al*bl / 2^64)
    ah * bl + al * bh + ((al * bl) >> 64)
}

#[test]
fn price_at_zero_is_exactly_two_to_the_64() {
    assert_eq!(get_sqrt_price_x64_from_tick(0), 18446744073709551616);
}

#[test]
fn price_at_one_uses_alternate_base_with_no_further_multiplier() {
    // |1| sets only bit 0, so the ratio is exactly the alternate base…
    assert_eq!(get_sqrt_price_x64_from_tick(-1), 18445821805675395072);
    // …and the positive side is its fixed-point reciprocal.
    assert_eq!(
        get_sqrt_price_x64_from_tick(1),
        MAX_U128 / 18445821805675395072
    );
    assert_eq!(get_sqrt_price_x64_from_tick(1), 18447666387855957090);
}

#[test]
fn pinned_price_values() {
    assert_eq!(get_sqrt_price_x64_from_tick(MIN_TICK), 4295048016);
    assert_eq!(get_sqrt_price_x64_from_tick(-1000), 17547129613991882732);
    assert_eq!(get_sqrt_price_x64_from_tick(-100), 18354745142194513203);
    assert_eq!(get_sqrt_price_x64_from_tick(-7), 18440289165698571674);
    assert_eq!(get_sqrt_price_x64_from_tick(-2), 18444899583751176192);
    assert_eq!(get_sqrt_price_x64_from_tick(2), 18448588748116922877);
    assert_eq!(get_sqrt_price_x64_from_tick(100), 18539204128674375874);
    assert_eq!(get_sqrt_price_x64_from_tick(1000), 19392480388906522465);
    assert_eq!(
        get_sqrt_price_x64_from_tick(MAX_TICK),
        79226673521066979257578248091
    );
}

#[test]
fn strictly_increasing_around_zero() {
    let mut prev = get_sqrt_price_x64_from_tick(-2000);
    for t in -1999..=2000 {
        let p = get_sqrt_price_x64_from_tick(t);
        assert!(p > prev, "not increasing at tick {t}");
        prev = p;
    }
}

#[test]
fn strictly_increasing_at_the_edges() {
    let mut prev = get_sqrt_price_x64_from_tick(MIN_TICK);
    for t in (MIN_TICK + 1)..=(MIN_TICK + 200) {
        let p = get_sqrt_price_x64_from_tick(t);
        assert!(p > prev, "not increasing at tick {t}");
        prev = p;
    }
    let mut prev = get_sqrt_price_x64_from_tick(MAX_TICK - 200);
    for t in (MAX_TICK - 199)..=MAX_TICK {
        let p = get_sqrt_price_x64_from_tick(t);
        assert!(p > prev, "not increasing at tick {t}");
        prev = p;
    }
}

#[test]
fn strictly_increasing_across_sampled_strides() {
    // Consecutive pairs sampled across the whole accepted band.
    let mut t = MIN_TICK;
    while t < MAX_TICK {
        let next = if t + 997 > MAX_TICK { MAX_TICK } else { t + 997 };
        let a = get_sqrt_price_x64_from_tick(t);
        let b = get_sqrt_price_x64_from_tick(t + 1);
        assert!(b > a, "not increasing at tick {t}");
        assert!(get_sqrt_price_x64_from_tick(next) >= b);
        t = next;
    }
}

#[test]
fn reciprocal_pairs_multiply_back_to_full_scale() {
    for t in [-443636, -12345, -100, -3, -1, 1, 3, 100, 12345, 443636] {
        let p = get_sqrt_price_x64_from_tick(t);
        let q = get_sqrt_price_x64_from_tick(-t);
        let product = p
            .checked_mul(q)
            .expect("product of a reciprocal pair stays within 128 bits");
        assert!(product <= MAX_U128);
        assert!(product > MAX_U128 - Q64, "pair at tick {t} drifted");
    }
}

#[test]
fn mul_right_shift_matches_reference() {
    let pairs: [(u128, u128); 12] = [
        (0, 0),
        (1, 1),
        (Q64 - 1, Q64 - 1),
        (Q64, 7685),
        (MAX_U128, 7685),
        (MAX_U128, Q64 - 1),
        (Q64 - 1, MAX_U128),
        (123456789123456789123456789, 987654321),
        (18446744073709551616, 18445821805675395072),
        (4295048016, 18444899583751176192),
        (MAX_U128, 1),
        (1, MAX_U128),
    ];
    for (a, b) in pairs {
        assert_eq!(
            mul_right_shift(a, b),
            mul_shift_reference(a, b),
            "mismatch at {a} * {b}"
        );
    }
}

#[test]
fn mul_right_shift_is_a_right_shift_of_the_full_product() {
    // For operands that both fit in 64 bits the product is exact, so the
    // result is the full product shifted right by 64.
    let a: u128 = 0xDEAD_BEEF_0000_0001;
    let b: u128 = 0x1234_5678_9ABC_DEF0;
    assert_eq!(mul_right_shift(a, b), (a * b) >> 64);
}
