use lexical_cache::float::ExtendedFloat;
use lexical_cache::moderate::max_exp64;
use lexical_cache::moderate::min_exp64;
use lexical_cache::moderate::moderate_path64;

fn to_f64(mant: u64, exp: i32) -> f64 {
    // Scale in steps: a single powi of a large magnitude would overflow to
    // infinity (or underflow to zero) even when the final value is in range.
    let mut v = mant as f64;
    let mut e: i32 = exp;
    while e > 0 {
        let s: i32 = e.min(500);
        v *= 2f64.powi(s);
        e -= s;
    }
    while e < 0 {
        let s: i32 = (-e).min(500);
        v /= 2f64.powi(s);
        e += s;
    }
    v
}

#[test]
fn decimal_123_45_rounds_to_the_correct_double() {
    // radix 10, width 64, mantissa 12345, exponent -2: the value 123.45.
    let (fp, err) = moderate_path64(12345, -2, 10, false);
    assert!(err <= 32, "error bound {} above 4 ulp", err);
    assert_eq!(to_f64(fp.mant, fp.exp), 123.45f64);
}

#[test]
fn small_decimal_values_round_trip_through_the_tables() {
    let cases: [(u64, i32, f64); 6] = [
        (1, 0, 1.0),
        (5, -1, 0.5),
        (299792458, 0, 299792458.0),
        (625, -4, 0.0625),
        (1, 308, 1e308),
        (17, -300, 17e-300),
    ];
    for &(m, e, expect) in cases.iter() {
        let (fp, _err) = moderate_path64(m, e, 10, false);
        assert_eq!(to_f64(fp.mant, fp.exp), expect, "10^{} * {}", e, m);
    }
}

#[test]
fn powers_of_two_radix_are_exact() {
    let (fp, _err) = moderate_path64(1, 10, 2, false);
    assert_eq!(to_f64(fp.mant, fp.exp), 1024.0);
    let (fp, _err) = moderate_path64(3, -4, 2, false);
    assert_eq!(to_f64(fp.mant, fp.exp), 0.1875);
    let (fp, _err) = moderate_path64(7, 5, 16, false);
    assert_eq!(to_f64(fp.mant, fp.exp), 7.0 * 1048576.0);
}

#[test]
fn other_radixes_compose_correctly() {
    // 2 * 3^7 = 4374, exactly representable in a double.
    let (fp, _err) = moderate_path64(2, 7, 3, false);
    assert_eq!(to_f64(fp.mant, fp.exp), 4374.0);
    // 11 * 36^-3 = 11 / 46656.
    let (fp, _err) = moderate_path64(11, -3, 36, false);
    assert_eq!(to_f64(fp.mant, fp.exp), 11.0 / 46656.0);
}

#[test]
fn repeated_calls_are_bit_identical() {
    let (fp1, err1) = moderate_path64(987654321, -37, 10, true);
    let (fp2, err2) = moderate_path64(987654321, -37, 10, true);
    assert_eq!(fp1.mant, fp2.mant);
    assert_eq!(fp1.exp, fp2.exp);
    assert_eq!(err1, err2);
}

#[test]
fn error_bound_values_match_the_lossy_steps() {
    // Exact small multiply (1 * 10^0 fits): only the large step is lossy.
    let (_fp, err) = moderate_path64(1, 0, 10, false);
    assert_eq!(err, 8);
    // 12345 * 10^18 overflows 64 bits: the small step turns lossy too.
    let (_fp, err) = moderate_path64(12345, -2, 10, false);
    assert_eq!(err, 12);
    // A truncated mantissa charges one more half-ulp.
    let (_fp, err) = moderate_path64(1, 0, 10, true);
    assert_eq!(err, 12);
    let (_fp, err) = moderate_path64(12345, -2, 10, true);
    assert_eq!(err, 16);
}

#[test]
fn more_lossy_steps_never_shrink_the_bound() {
    for &e in [-300, -37, -2, 0, 5, 77, 300].iter() {
        let (_f1, plain) = moderate_path64(12345, e, 10, false);
        let (_f2, truncated) = moderate_path64(12345, e, 10, true);
        assert!(plain <= truncated);
    }
}

#[test]
fn zero_mantissa_yields_zero_without_loss() {
    let (fp, err) = moderate_path64(0, 100, 10, false);
    assert_eq!(fp.mant, 0);
    assert_eq!(fp.exp, 0);
    assert_eq!(err, 0);
}

#[test]
fn boundary_exponents_decompose_for_every_radix() {
    for radix in 2u32..=36 {
        let lo: i32 = min_exp64(radix);
        let hi: i32 = max_exp64(radix);
        assert!(lo < 0 && hi > 0);
        let (fp_lo, _err) = moderate_path64(1, lo, radix, false);
        let (fp_hi, _err) = moderate_path64(1, hi, radix, false);
        assert!(fp_lo.mant != 0, "radix {} at {}", radix, lo);
        assert!(fp_hi.mant != 0, "radix {} at {}", radix, hi);
    }
}

#[test]
fn exponent_limits_cover_the_double_range_for_decimal() {
    assert!(min_exp64(10) <= -345);
    assert!(max_exp64(10) >= 345);
}

#[test]
fn normalize_sets_the_top_bit_and_preserves_the_value() {
    let mut fp = ExtendedFloat { mant: 12345u64, exp: 10 };
    let before = to_f64(fp.mant, fp.exp);
    fp.normalize();
    assert!(fp.mant >= 1u64 << 63);
    assert_eq!(to_f64(fp.mant, fp.exp), before);
    let mut zero = ExtendedFloat { mant: 0u64, exp: 3 };
    zero.normalize();
    assert_eq!(zero.mant, 0);
    assert_eq!(zero.exp, 3);
}

#[test]
fn mul_rounds_to_nearest_and_sums_exponents() {
    // (2^63) * (2^63): product 2^126, mantissa 2^62 at exponent 64.
    let a = ExtendedFloat { mant: 1u64 << 63, exp: -3 };
    let b = ExtendedFloat { mant: 1u64 << 63, exp: 5 };
    let r = a.mul(&b);
    assert_eq!(r.mant, 1u64 << 62);
    assert_eq!(r.exp, -3 + 5 + 64);
}
