use score_ocr::number::{is_ascii_digit, parse_count, parse_decimal, Decimal};

#[test]
fn counts_are_plain_digits() {
    assert_eq!(parse_count("0"), Some(0));
    assert_eq!(parse_count("1000"), Some(1000));
    assert_eq!(parse_count("007"), Some(7));
    assert_eq!(parse_count("+15"), Some(15));
}

#[test]
fn counts_reject_everything_else() {
    assert_eq!(parse_count(""), None);
    assert_eq!(parse_count("+"), None);
    assert_eq!(parse_count("-1"), None);
    assert_eq!(parse_count("1 2"), None);
    assert_eq!(parse_count(" 12"), None);
    assert_eq!(parse_count("12a"), None);
    assert_eq!(parse_count("1.5"), None);
    assert_eq!(parse_count("++1"), None);
    assert_eq!(parse_count("١٢"), None);
}

#[test]
fn counts_stop_at_32_bits() {
    assert_eq!(parse_count("4294967295"), Some(u32::MAX));
    assert_eq!(parse_count("4294967296"), None);
    assert_eq!(parse_count("99999999999999999999999999"), None);
    assert_eq!(parse_count("000000000000000000000000000001"), Some(1));
}

#[test]
fn counts_agree_with_the_standard_parser() {
    let samples = [
        "", "0", "5", "+5", "-5", "+", "-", "12", "012", "4294967295", "4294967296", "1e3", "0x10",
        " 1", "1 ", "1_000", "+-1", "٣",
    ];
    for text in samples {
        assert_eq!(parse_count(text), text.parse::<u32>().ok(), "{:?}", text);
    }
}

#[test]
fn digits_are_the_ten_ascii_digits() {
    assert!(is_ascii_digit('0'));
    assert!(is_ascii_digit('9'));
    assert!(!is_ascii_digit('/'));
    assert!(!is_ascii_digit(':'));
    assert!(!is_ascii_digit('a'));
    assert!(!is_ascii_digit('٣'));
}

#[test]
fn decimals_are_kept_in_millionths() {
    assert_eq!(parse_decimal("99.53"), Some(Decimal { micros: 99_530_000 }));
    assert_eq!(parse_decimal("0"), Some(Decimal { micros: 0 }));
    assert_eq!(parse_decimal("23"), Some(Decimal { micros: 23_000_000 }));
    assert_eq!(parse_decimal("23."), Some(Decimal { micros: 23_000_000 }));
    assert_eq!(parse_decimal(".5"), Some(Decimal { micros: 500_000 }));
    assert_eq!(parse_decimal("0.000001"), Some(Decimal { micros: 1 }));
    assert_eq!(parse_decimal("12.345678"), Some(Decimal { micros: 12_345_678 }));
    assert_eq!(parse_decimal("007.25"), Some(Decimal { micros: 7_250_000 }));
}

#[test]
fn decimals_may_carry_a_sign() {
    assert_eq!(parse_decimal("-0.5"), Some(Decimal { micros: -500_000 }));
    assert_eq!(parse_decimal("+0.5"), Some(Decimal { micros: 500_000 }));
    assert_eq!(parse_decimal("-0"), Some(Decimal { micros: 0 }));
    assert_eq!(parse_decimal("-12.25"), Some(Decimal { micros: -12_250_000 }));
}

#[test]
fn decimals_drop_digits_past_the_sixth_place() {
    assert_eq!(parse_decimal("1.2345678"), Some(Decimal { micros: 1_234_567 }));
    assert_eq!(parse_decimal("0.0000009"), Some(Decimal { micros: 0 }));
    assert_eq!(parse_decimal("-1.9999999"), Some(Decimal { micros: -1_999_999 }));
}

#[test]
fn decimals_reject_what_is_no_number() {
    assert_eq!(parse_decimal(""), None);
    assert_eq!(parse_decimal("."), None);
    assert_eq!(parse_decimal("-"), None);
    assert_eq!(parse_decimal("+."), None);
    assert_eq!(parse_decimal("abc"), None);
    assert_eq!(parse_decimal("1.2.3"), None);
    assert_eq!(parse_decimal("1,5"), None);
    assert_eq!(parse_decimal("99.53%"), None);
    assert_eq!(parse_decimal(" 1.5"), None);
    assert_eq!(parse_decimal("1.5 "), None);
    assert_eq!(parse_decimal("--1"), None);
    assert_eq!(parse_decimal("1.5x"), None);
    assert_eq!(parse_decimal("1.-5"), None);
}

#[test]
fn decimals_stop_where_millionths_leave_64_bits() {
    assert_eq!(
        parse_decimal("9223372036854.775807"),
        Some(Decimal { micros: i64::MAX })
    );
    assert_eq!(
        parse_decimal("-9223372036854.775807"),
        Some(Decimal { micros: -i64::MAX })
    );
    assert_eq!(parse_decimal("9223372036854.775808"), None);
    assert_eq!(parse_decimal("9223372036855"), None);
    assert_eq!(parse_decimal("100000000000000000000000000"), None);
}

#[test]
fn closeness_is_a_hundredth_both_ways() {
    let a = Decimal { micros: 99_530_000 };
    assert!(a.is_close_to(&a));
    assert!(a.is_close_to(&Decimal { micros: 99_520_000 }));
    assert!(a.is_close_to(&Decimal { micros: 99_540_000 }));
    assert!(!a.is_close_to(&Decimal { micros: 99_519_999 }));
    assert!(!a.is_close_to(&Decimal { micros: 99_540_001 }));
    assert!(Decimal { micros: -5_000 }.is_close_to(&Decimal { micros: 5_000 }));
    assert!(!Decimal { micros: -5_001 }.is_close_to(&Decimal { micros: 5_000 }));
}

#[test]
fn closeness_holds_at_the_ends_of_the_range() {
    let top = Decimal { micros: i64::MAX };
    let bottom = Decimal { micros: i64::MIN };
    assert!(top.is_close_to(&top));
    assert!(bottom.is_close_to(&bottom));
    assert!(!top.is_close_to(&bottom));
    assert!(!bottom.is_close_to(&top));
    assert!(top.is_close_to(&Decimal { micros: i64::MAX - 10_000 }));
    assert!(!top.is_close_to(&Decimal { micros: i64::MAX - 10_001 }));
    assert!(bottom.is_close_to(&Decimal { micros: i64::MIN + 10_000 }));
}
