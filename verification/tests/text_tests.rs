use simulation::fixed::{fx_abs, fx_add, fx_div, fx_mul, fx_sqrt, fx_sub, SCALE};
use simulation::text::{fx_to_string, parse_fixed, parse_u64, u64_to_string};

#[test]
fn rendering_is_exact() {
    assert_eq!(fx_to_string(1_000_000), "1.000000");
    assert_eq!(fx_to_string(-1_000_000), "-1.000000");
    assert_eq!(fx_to_string(350_000), "0.350000");
    assert_eq!(fx_to_string(0), "0.000000");
    assert_eq!(fx_to_string(1_500_000), "1.500000");
    assert_eq!(fx_to_string(-123_456_789), "-123.456789");
    assert_eq!(fx_to_string(i64::MAX), "9223372036854.775807");
}

#[test]
fn rendering_distinct_values_never_collides() {
    let values = vec![0, 1, -1, 999_999, 1_000_000, -1_000_000, 10, 10_000_000];
    for (i, a) in values.iter().enumerate() {
        for (j, b) in values.iter().enumerate() {
            if i != j {
                assert_ne!(fx_to_string(*a), fx_to_string(*b));
            }
        }
    }
}

#[test]
fn u64_rendering_is_exact() {
    assert_eq!(u64_to_string(0), "0");
    assert_eq!(u64_to_string(7), "7");
    assert_eq!(u64_to_string(1234567890), "1234567890");
    assert_eq!(u64_to_string(u64::MAX), "18446744073709551615");
}

#[test]
fn parse_u64_accepts_digit_runs_only() {
    assert_eq!(parse_u64("0"), Some(0));
    assert_eq!(parse_u64("123"), Some(123));
    assert_eq!(parse_u64("18446744073709551615"), Some(u64::MAX));
    assert_eq!(parse_u64("18446744073709551616"), None);
    assert_eq!(parse_u64(""), None);
    assert_eq!(parse_u64("12a"), None);
    assert_eq!(parse_u64("-3"), None);
    // The grammar is deliberately a bare digit run: a leading sign or
    // padding is rejected.
    assert_eq!(parse_u64("+5"), None);
    assert_eq!(parse_u64(" 5"), None);
    assert_eq!(parse_u64("1.5"), None);
}

#[test]
fn parse_fixed_round_trips_rendered_values() {
    for v in [0i64, 1, -1, 350_000, -1_000_000, 123_456_789, i64::MAX, i64::MIN + 1] {
        assert_eq!(parse_fixed(&fx_to_string(v)), Some(v));
    }
}

#[test]
fn parse_fixed_handles_short_numerals() {
    assert_eq!(parse_fixed("42"), Some(42_000_000));
    assert_eq!(parse_fixed("-2.5"), Some(-2_500_000));
    assert_eq!(parse_fixed("0.35"), Some(350_000));
    assert_eq!(parse_fixed("1.5"), Some(1_500_000));
    assert_eq!(parse_fixed("0.000001"), Some(1));
}

#[test]
fn parse_fixed_rejects_what_is_not_a_numeral() {
    assert_eq!(parse_fixed(""), None);
    assert_eq!(parse_fixed("-"), None);
    assert_eq!(parse_fixed("."), None);
    assert_eq!(parse_fixed("1."), None);
    assert_eq!(parse_fixed(".5"), None);
    assert_eq!(parse_fixed("1.2345678"), None);
    assert_eq!(parse_fixed("abc"), None);
    assert_eq!(parse_fixed("1e3"), None);
    assert_eq!(parse_fixed("1.2.3"), None);
    assert_eq!(parse_fixed("99999999999999999999"), None);
}

#[test]
fn fixed_point_arithmetic_is_exact() {
    assert_eq!(fx_mul(1_500_000, 2_000_000), 3_000_000);
    assert_eq!(fx_mul(-1_500_000, 2_000_000), -3_000_000);
    assert_eq!(fx_mul(500_000, 500_000), 250_000);
    assert_eq!(fx_div(1_000_000, 4_000_000), 250_000);
    assert_eq!(fx_div(150_000, 500_000), 300_000);
    assert_eq!(fx_add(1, 2), 3);
    assert_eq!(fx_sub(1, 2), -1);
    assert_eq!(fx_abs(-7), 7);
    assert_eq!(fx_sqrt(4_000_000), 2_000_000);
    assert_eq!(fx_sqrt(SCALE), SCALE);
    assert_eq!(fx_sqrt(0), 0);
}

#[test]
fn fixed_point_arithmetic_saturates() {
    assert_eq!(fx_add(i64::MAX, 1), i64::MAX);
    assert_eq!(fx_sub(i64::MIN, 1), i64::MIN);
    assert_eq!(fx_mul(i64::MAX, i64::MAX), i64::MAX);
    assert_eq!(fx_mul(i64::MIN, i64::MAX), i64::MIN);
}
