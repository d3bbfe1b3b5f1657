use pretty_derby::decimal::int_to_text;
use pretty_derby::decimal::mileage_to_text;
use pretty_derby::decimal::parse_mileage;
use pretty_derby::decimal::MILEAGE_LIMIT;
use pretty_derby::decimal::UNIT;

#[test]
fn integers_are_written_in_decimal() {
    assert_eq!(int_to_text(0), "0");
    assert_eq!(int_to_text(7), "7");
    assert_eq!(int_to_text(10), "10");
    assert_eq!(int_to_text(1335), "1335");
    assert_eq!(int_to_text(-1), "-1");
    assert_eq!(int_to_text(-334000), "-334000");
    assert_eq!(int_to_text(i64::MAX), "9223372036854775807");
    assert_eq!(int_to_text(i64::MIN), "-9223372036854775808");
}

#[test]
fn integer_text_agrees_with_std() {
    for v in [-1_000_000i64, -99, -10, -9, 0, 9, 10, 99, 100, 101, 58_300, 1_000_000_007] {
        assert_eq!(int_to_text(v), v.to_string());
    }
}

#[test]
fn whole_mileages_are_written_without_a_point() {
    assert_eq!(mileage_to_text(0), "0");
    assert_eq!(mileage_to_text(4 * UNIT), "4");
    assert_eq!(mileage_to_text(10 * UNIT), "10");
    assert_eq!(mileage_to_text(-3 * UNIT), "-3");
}

#[test]
fn fractions_end_at_their_last_digit() {
    assert_eq!(mileage_to_text(3_987_500), "3.9875");
    assert_eq!(mileage_to_text(3_990_000), "3.99");
    assert_eq!(mileage_to_text(100_000), "0.1");
    assert_eq!(mileage_to_text(1), "0.000001");
    assert_eq!(mileage_to_text(1_000_001), "1.000001");
    assert_eq!(mileage_to_text(12_345_678), "12.345678");
    assert_eq!(mileage_to_text(-20_000), "-0.02");
    assert_eq!(mileage_to_text(-1_000), "-0.001");
    assert_eq!(mileage_to_text(5_050_000), "5.05");
}

#[test]
fn mileage_text_agrees_with_the_float_of_the_same_value() {
    for steps in [0i64, 1, 999_999, 1_000_000, 3_987_123, 3_990_000, 16_000_000, -2_500_000] {
        let float = steps as f64 / 1_000_000.0;
        assert_eq!(mileage_to_text(steps), float.to_string());
    }
}

#[test]
fn decimal_texts_are_read_as_steps() {
    assert_eq!(parse_mileage("0"), Some(0));
    assert_eq!(parse_mileage("1.5"), Some(1_500_000));
    assert_eq!(parse_mileage("2.53"), Some(2_530_000));
    assert_eq!(parse_mileage("-2.25"), Some(-2_250_000));
    assert_eq!(parse_mileage("+3"), Some(3_000_000));
    assert_eq!(parse_mileage(".5"), Some(500_000));
    assert_eq!(parse_mileage("5."), Some(5_000_000));
    assert_eq!(parse_mileage("007"), Some(7_000_000));
    assert_eq!(parse_mileage("0.000001"), Some(1));
}

#[test]
fn digits_beyond_the_sixth_are_left_out() {
    assert_eq!(parse_mileage("3.1234567"), Some(3_123_456));
    assert_eq!(parse_mileage("0.0000009"), Some(0));
    assert_eq!(parse_mileage("-0.0000009"), Some(0));
    assert_eq!(parse_mileage("1.99999999999999999999999999"), Some(1_999_999));
}

#[test]
fn texts_that_are_no_decimal_are_refused() {
    for text in ["", ".", "-", "+", "-.", "1e3", "1.2.3", " 1", "1 ", "abc", "1,5", "--1", "+-1", "١", "1.５", "inf", "NaN", "0x10"] {
        assert_eq!(parse_mileage(text), None, "{:?}", text);
    }
}

#[test]
fn mileages_beyond_the_limit_are_refused() {
    assert_eq!(parse_mileage("1000"), Some(MILEAGE_LIMIT));
    assert_eq!(parse_mileage("-1000"), Some(-MILEAGE_LIMIT));
    assert_eq!(parse_mileage("1000.000000"), Some(MILEAGE_LIMIT));
    assert_eq!(parse_mileage("1000.0000009"), Some(MILEAGE_LIMIT));
    assert_eq!(parse_mileage("1000.000001"), None);
    assert_eq!(parse_mileage("-1000.000001"), None);
    assert_eq!(parse_mileage("1001"), None);
    assert_eq!(parse_mileage("99999999999999999999999999999999999999"), None);
    assert_eq!(parse_mileage("00000000000000000000000000000000000001"), Some(UNIT));
}

#[test]
fn written_mileages_read_back() {
    for steps in [0i64, 1, -1, 10, 999_999, 1_000_000, 3_987_123, -20_000, 16_000_000, MILEAGE_LIMIT, -MILEAGE_LIMIT] {
        assert_eq!(parse_mileage(&mileage_to_text(steps)), Some(steps));
    }
}
