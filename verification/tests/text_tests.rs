use snipercor::text::{
    fixed_to_text, is_keyword, number_text, parse_bool, parse_decimal, parse_signed_decimal,
    parse_u64, same_text, split, text_less,
};

#[test]
fn parse_decimal_reads_millionths() {
    assert_eq!(parse_decimal("0.5"), Some(500_000));
    assert_eq!(parse_decimal("1"), Some(1_000_000));
    assert_eq!(parse_decimal("1.0000019"), Some(1_000_001));
    assert_eq!(parse_decimal("+2.25"), Some(2_250_000));
    assert_eq!(parse_decimal(".5"), Some(500_000));
    assert_eq!(parse_decimal("5."), Some(5_000_000));
    assert_eq!(parse_decimal("."), None);
    assert_eq!(parse_decimal(""), None);
    assert_eq!(parse_decimal("-1"), None);
    assert_eq!(parse_decimal("1e3"), None);
    assert_eq!(parse_decimal("18446744073709.551615"), Some(u64::MAX));
    assert_eq!(parse_decimal("18446744073709.551616"), None);
}

#[test]
fn parse_u64_reads_digits() {
    assert_eq!(parse_u64("5000"), Some(5000));
    assert_eq!(parse_u64("+7"), Some(7));
    assert_eq!(parse_u64(""), None);
    assert_eq!(parse_u64("12a"), None);
    assert_eq!(parse_u64("18446744073709551615"), Some(u64::MAX));
    assert_eq!(parse_u64("18446744073709551616"), None);
}

#[test]
fn parse_bool_is_exact() {
    assert_eq!(parse_bool("true"), Some(true));
    assert_eq!(parse_bool("false"), Some(false));
    assert_eq!(parse_bool("True"), None);
}

#[test]
fn split_keeps_empty_fields() {
    assert_eq!(split("a:b::c", ':'), vec!["a".to_string(), "b".to_string(), "".to_string(), "c".to_string()]);
    assert_eq!(split("", ','), vec!["".to_string()]);
    assert_eq!(split("x,", ','), vec!["x".to_string(), "".to_string()]);
}

#[test]
fn keywords_ignore_ascii_case() {
    assert!(is_keyword("PrImArY", "primary"));
    assert!(!is_keyword("primary ", "primary"));
}

#[test]
fn signed_decimals_take_a_minus() {
    assert_eq!(parse_signed_decimal("-2.5"), Some(-2_500_000));
    assert_eq!(parse_signed_decimal("2.5"), Some(2_500_000));
    assert_eq!(parse_signed_decimal("-0"), Some(0));
    assert_eq!(parse_signed_decimal("-"), None);
    assert_eq!(parse_signed_decimal("--1"), None);
    assert_eq!(parse_signed_decimal("-+1"), None);
    assert_eq!(parse_signed_decimal("+1"), Some(1_000_000));
    assert_eq!(parse_signed_decimal("9223372036854.775807"), Some(i64::MAX));
    assert_eq!(parse_signed_decimal("9223372036854.775808"), None);
    assert_eq!(parse_signed_decimal("-9223372036854.775807"), Some(-i64::MAX));
    assert_eq!(parse_signed_decimal("-9223372036854.775808"), None);
}

#[test]
fn numbers_are_written_in_decimal() {
    assert_eq!(number_text(0), "0");
    assert_eq!(number_text(7), "7");
    assert_eq!(number_text(1_000), "1000");
    assert_eq!(number_text(u64::MAX), "18446744073709551615");
    assert_eq!(fixed_to_text(0), "0.000000");
    assert_eq!(fixed_to_text(1), "0.000001");
    assert_eq!(fixed_to_text(12_500_000), "12.500000");
    assert_eq!(fixed_to_text(u64::MAX), "18446744073709.551615");
    // What is written reads back as the same number.
    for n in [0u64, 1, 999_999, 1_000_000, 123_456_789, u64::MAX] {
        assert_eq!(parse_decimal(&fixed_to_text(n)), Some(n));
        assert_eq!(parse_u64(&number_text(n)), Some(n));
    }
}

#[test]
fn texts_are_ordered_as_in_a_dictionary() {
    assert!(text_less("a", "b"));
    assert!(!text_less("b", "a"));
    assert!(text_less("", "a"));
    assert!(!text_less("a", ""));
    assert!(!text_less("a", "a"));
    assert!(text_less("a", "ab"));
    assert!(text_less("Z", "a"));
    assert!(text_less("arb-a", "arb-b"));
    assert!(text_less("z", "é"));
    for (a, b) in [("x", "y"), ("wallet-10", "wallet-9"), ("", ""), ("é", "e")] {
        assert_eq!(text_less(a, b), a < b);
        assert_eq!(same_text(a, b), a == b);
    }
}
