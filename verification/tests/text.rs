use trip_browser::text::{decimal_text, parse_decimal};

#[test]
fn decimal_of_small_numbers() {
    assert_eq!(decimal_text(0), "0");
    assert_eq!(decimal_text(7), "7");
    assert_eq!(decimal_text(9), "9");
    assert_eq!(decimal_text(10), "10");
    assert_eq!(decimal_text(105), "105");
    assert_eq!(decimal_text(1234567890), "1234567890");
}

#[test]
fn decimal_of_large_numbers() {
    assert_eq!(decimal_text(4294967295), "4294967295");
    assert_eq!(decimal_text(u64::MAX), "18446744073709551615");
}

#[test]
fn decimal_agrees_with_the_standard_rendering() {
    for n in 0u64..2000 {
        assert_eq!(decimal_text(n), format!("{}", n));
    }
    for n in [99_999u64, 100_000, 100_001, 999_999_999, 1_000_000_000] {
        assert_eq!(decimal_text(n), format!("{}", n));
    }
}

#[test]
fn decimal_texts_of_different_numbers_differ() {
    for a in 0u64..120 {
        for b in 0u64..120 {
            assert_eq!(a == b, decimal_text(a) == decimal_text(b));
        }
    }
}

#[test]
fn numerals_are_read() {
    assert_eq!(parse_decimal("0"), Some(0));
    assert_eq!(parse_decimal("1"), Some(1));
    assert_eq!(parse_decimal("42"), Some(42));
    assert_eq!(parse_decimal("007"), Some(7));
    assert_eq!(parse_decimal("4294967295"), Some(u32::MAX));
    assert_eq!(parse_decimal("0000000000004294967295"), Some(u32::MAX));
}

#[test]
fn anything_else_is_no_number() {
    assert_eq!(parse_decimal(""), None);
    assert_eq!(parse_decimal(" 1"), None);
    assert_eq!(parse_decimal("1 "), None);
    assert_eq!(parse_decimal("+"), None);
    assert_eq!(parse_decimal("++1"), None);
    assert_eq!(parse_decimal("+-1"), None);
    assert_eq!(parse_decimal("1+"), None);
    assert_eq!(parse_decimal("+ 1"), None);
    assert_eq!(parse_decimal("-1"), None);
    assert_eq!(parse_decimal("1.0"), None);
    assert_eq!(parse_decimal("12a"), None);
    assert_eq!(parse_decimal("a12"), None);
    assert_eq!(parse_decimal("١٢"), None);
}

#[test]
fn plus_sign_may_lead_a_numeral() {
    assert_eq!(parse_decimal("+1"), Some(1));
    assert_eq!(parse_decimal("+0"), Some(0));
    assert_eq!(parse_decimal("+007"), Some(7));
    assert_eq!(parse_decimal("+4294967295"), Some(u32::MAX));
    assert_eq!(parse_decimal("+4294967296"), None);
}

#[test]
fn numerals_are_read_as_the_standard_reader_reads_them() {
    let texts = [
        "", "0", "5", "+5", "-5", "+", "-", "++5", "05", " 5", "5 ", "12x", "4294967295",
        "4294967296", "+4294967295", "1_000", "0x10", "٣",
    ];
    for text in texts {
        assert_eq!(parse_decimal(text), text.parse::<u32>().ok());
    }
}

#[test]
fn numbers_too_large_for_a_page_are_no_number() {
    assert_eq!(parse_decimal("4294967296"), None);
    assert_eq!(parse_decimal("99999999999999999999999999"), None);
}

#[test]
fn reading_back_what_was_written() {
    for n in [0u32, 1, 9, 10, 99, 100, 12345, u32::MAX - 1, u32::MAX] {
        assert_eq!(parse_decimal(&decimal_text(n as u64)), Some(n));
    }
}
