use cdp_treasury::{checked_from_rational, debit_proportion, Ratio};

fn inner(n: u128, d: u128) -> Option<u128> {
    checked_from_rational(n, d).map(|ratio| ratio.inner)
}

#[test]
fn small_fractions_round_down() {
    assert_eq!(inner(1, 2), Some(500_000_000_000_000_000));
    assert_eq!(inner(2, 3), Some(666_666_666_666_666_666));
    assert_eq!(inner(1, 1), Some(1_000_000_000_000_000_000));
    assert_eq!(inner(0, 5), Some(0));
    assert_eq!(inner(300_000_000_000_000_000_000, 7_000_000_001), Some(42857142851020408164139941690));
}

#[test]
fn denominator_zero_is_no_ratio() {
    assert_eq!(inner(5, 0), None);
    assert_eq!(inner(0, 0), None);
    assert_eq!(debit_proportion(5, 0), Ratio { inner: 0 });
}

#[test]
fn large_products_round_to_nearest_over_long_denominators() {
    assert_eq!(
        inner(2_000_000_000_000_000_000_000, 3_000_000_000_000_000_000_000),
        Some(666_666_666_666_666_667)
    );
    assert_eq!(
        inner(1_000_000_000_000_000_000_000, 3_000_000_000_000_000_000_000),
        Some(333_333_333_333_333_333)
    );
    assert_eq!(
        inner(1_000_000_000_000_000_000_001, 4_294_967_297),
        Some(232830643599659520294829383424)
    );
    assert_eq!(
        inner(123456789012345678901234567890, 987654321098765432109876543),
        Some(124999998860937500014)
    );
}

#[test]
fn remainder_of_exactly_half_rounds_down() {
    assert_eq!(inner(3276800000000000016384, 8589934592), Some(381469726562500001907348632812));
    assert_eq!(inner(3276800000000000016385, 8589934592), Some(381469726562500001907465048134));
}

#[test]
fn large_products_round_down_over_short_denominators() {
    assert_eq!(
        inner(1_000_000_000_000_000_000_000, 7),
        Some(142857142857142857142857142857142857142)
    );
    assert_eq!(
        inner(1_000_000_000_000_000_000_000, 4_294_967_295),
        Some(232830643708079737543146996186)
    );
    assert_eq!(
        inner(1_000_000_000_000_000_000_000, 4_294_967_296),
        Some(232830643653869628906250000000)
    );
}

#[test]
fn too_large_a_ratio_is_none() {
    assert_eq!(inner(u128::MAX, 1), None);
    assert_eq!(inner(u128::MAX, 999_999_999_999_999_999), None);
    assert_eq!(inner(u128::MAX, 1_000_000_000_000_000_000), Some(u128::MAX));
    assert_eq!(inner(u128::MAX, u128::MAX), Some(1_000_000_000_000_000_000));
    assert_eq!(inner(340282366920938463463, 1), Some(340282366920938463463000000000000000000));
    assert_eq!(inner(340282366920938463464, 1), None);
    assert_eq!(debit_proportion(u128::MAX, 1), Ratio::zero());
}

#[test]
fn proportion_of_issuance() {
    assert_eq!(debit_proportion(25, 100), Ratio { inner: 250_000_000_000_000_000 });
    assert_eq!(debit_proportion(100, 100), Ratio { inner: 1_000_000_000_000_000_000 });
    assert_eq!(debit_proportion(300, 100), Ratio { inner: 3_000_000_000_000_000_000 });
}

/// `a * b` as a number of 256 bits: its upper and its lower half.
fn wide_product(a: u128, b: u128) -> (u128, u128) {
    let mask: u128 = (1u128 << 64) - 1;
    let (a_high, a_low) = (a >> 64, a & mask);
    let (b_high, b_low) = (b >> 64, b & mask);
    let low_low = a_low * b_low;
    let low_high = a_low * b_high;
    let high_low = a_high * b_low;
    let high_high = a_high * b_high;
    let middle = (low_low >> 64) + (low_high & mask) + (high_low & mask);
    let low = (low_low & mask) | (middle << 64);
    let high = high_high + (low_high >> 64) + (high_low >> 64) + (middle >> 64);
    (high, low)
}

/// Quotient and remainder of a number of 256 bits by `d`; no quotient where
/// it takes more than 128 bits.
fn wide_division(high: u128, low: u128, d: u128) -> (Option<u128>, u128) {
    let mut remainder: u128 = 0;
    let mut quotient: u128 = 0;
    let mut fits = true;
    for position in (0..256u32).rev() {
        let bit = if position >= 128 { (high >> (position - 128)) & 1 } else { (low >> position) & 1 };
        let carried = remainder >> 127 == 1;
        remainder = (remainder << 1) | bit;
        if carried || remainder >= d {
            remainder = remainder.wrapping_sub(d);
            if position >= 128 {
                fits = false;
            } else {
                quotient |= 1u128 << position;
            }
        }
    }
    (if fits { Some(quotient) } else { None }, remainder)
}

fn expected_inner(n: u128, d: u128) -> Option<u128> {
    if d == 0 {
        return None;
    }
    let (high, low) = wide_product(n, 1_000_000_000_000_000_000);
    let (quotient, remainder) = wide_division(high, low, d);
    let rounds_up = high != 0 && d >= 1u128 << 32 && remainder > d / 2;
    match quotient {
        Some(quotient) if rounds_up => quotient.checked_add(1),
        other => other,
    }
}

#[test]
fn exact_division_by_hand_agrees_with_known_values() {
    assert_eq!(expected_inner(2, 3), Some(666_666_666_666_666_666));
    assert_eq!(
        expected_inner(2_000_000_000_000_000_000_000, 3_000_000_000_000_000_000_000),
        Some(666_666_666_666_666_667)
    );
    assert_eq!(expected_inner(u128::MAX, 999_999_999_999_999_999), None);
    assert_eq!(expected_inner(u128::MAX, 1_000_000_000_000_000_000), Some(u128::MAX));
    assert_eq!(expected_inner(3276800000000000016384, 8589934592), Some(381469726562500001907348632812));
}

#[test]
fn ratio_agrees_with_exact_division_on_many_inputs() {
    let mut state: u128 = 0x2545_f491_4f6c_dd1d_9e37_79b9_7f4a_7c15;
    let mut next = move || {
        state ^= state << 13;
        state ^= state >> 7;
        state ^= state << 17;
        state = state.wrapping_mul(0x9e37_79b9_7f4a_7c15_f39c_c060_5ced_c835);
        state
    };
    let mut checked = 0u32;
    for round in 0..40_000u32 {
        let n = next() >> (next() % 128);
        let d = next() >> (next() % 128);
        let (n, d) = match round % 4 {
            0 => (n, d),
            1 => (n, d % (1u128 << 33)),
            2 => (n.max(1u128 << 70), d.max(1u128 << 32)),
            _ => (n, n.wrapping_add(next() % 1000).max(1)),
        };
        assert_eq!(inner(n, d), expected_inner(n, d), "n = {}, d = {}", n, d);
        checked += 1;
    }
    assert_eq!(checked, 40_000);
}
