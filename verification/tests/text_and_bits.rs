use fem_ui::float_bits::{finite_non_negative, finite_positive, float_eq, i8_to_f32_bits, is_finite, is_nan};
use fem_ui::text::{eq_ignore_ascii_case, format_decimal, format_decimal_u64, starts_with, str_eq};

#[test]
fn decimal_text_matches_display() {
    for n in [0usize, 7, 10, 99, 12345, usize::MAX] {
        assert_eq!(format_decimal(n), n.to_string());
    }
    assert_eq!(format_decimal_u64(u64::MAX), u64::MAX.to_string());
}

#[test]
fn string_comparisons() {
    assert!(str_eq("解析", "解析"));
    assert!(!str_eq("a", "ab"));
    assert!(starts_with("MPC_PAIR_1_UX", "MPC_PAIR_1"));
    assert!(!starts_with("MPC", "MPC_PAIR"));
    assert!(eq_ignore_ascii_case("Contact_1", "CONTACT_1"));
    assert!(!eq_ignore_ascii_case("é", "É"));
}

#[test]
fn float_bit_predicates_follow_ieee_comparisons() {
    for x in [0.0f32, -0.0, 1.0, -2.5, f32::INFINITY, f32::NEG_INFINITY, f32::NAN, f32::MIN_POSITIVE] {
        assert_eq!(is_finite(x.to_bits()), x.is_finite());
        assert_eq!(is_nan(x.to_bits()), x.is_nan());
        assert_eq!(finite_non_negative(x.to_bits()), x.is_finite() && x >= 0.0);
        assert_eq!(finite_positive(x.to_bits()), x.is_finite() && x > 0.0);
        for y in [0.0f32, -0.0, 1.0, f32::NAN] {
            assert_eq!(float_eq(x.to_bits(), y.to_bits()), x == y);
        }
    }
}

#[test]
fn every_i8_converts_exactly() {
    for n in i8::MIN..=i8::MAX {
        assert_eq!(i8_to_f32_bits(n), (n as f32).to_bits(), "{n}");
    }
}
