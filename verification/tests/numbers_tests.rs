use open_eqms::numbers::{integer_to_number, number_equal, number_is_finite, number_is_nan, number_less};

#[test]
fn integer_conversion_matches_ieee_rounding() {
    for n in [0u64, 1, 2, 3, 10, 1 << 52, (1 << 53) - 1, 1 << 53, (1 << 53) + 1, (1 << 53) + 3, u64::MAX, 123_456_789_012_345_678] {
        assert_eq!((n as f64).to_bits(), integer_to_number(n), "conversion of {n}");
    }
}

#[test]
fn number_comparisons_follow_ieee() {
    let nan = f64::NAN.to_bits();
    assert!(number_is_nan(nan));
    assert!(!number_is_finite(f64::INFINITY.to_bits()));
    assert!(number_is_finite(1.5f64.to_bits()));
    assert!(number_equal(0.0f64.to_bits(), (-0.0f64).to_bits()));
    assert!(!number_equal(nan, nan));
    assert!(number_less((-2.0f64).to_bits(), 1.0f64.to_bits()));
    assert!(!number_less(nan, 1.0f64.to_bits()));
}
