use dpedit::text::{matches_token, parse_i32, parse_u32};

#[test]
fn unsigned_numbers_are_read_in_base_ten() {
    assert_eq!(parse_u32("0"), Some(0));
    assert_eq!(parse_u32("1"), Some(1));
    assert_eq!(parse_u32("42"), Some(42));
    assert_eq!(parse_u32("1920"), Some(1920));
    assert_eq!(parse_u32("007"), Some(7));
    assert_eq!(parse_u32("+5"), Some(5));
}

#[test]
fn unsigned_numbers_end_at_the_largest_u32() {
    assert_eq!(parse_u32("4294967295"), Some(u32::MAX));
    assert_eq!(parse_u32("4294967296"), None);
    assert_eq!(parse_u32("00004294967295"), Some(u32::MAX));
    assert_eq!(parse_u32("99999999999999999999999999"), None);
}

#[test]
fn unsigned_numbers_take_no_minus_sign() {
    assert_eq!(parse_u32("-1"), None);
    assert_eq!(parse_u32("-0"), None);
}

#[test]
fn text_that_is_no_number_is_refused() {
    for text in ["", "+", "-", " 1", "1 ", "1_000", "0x10", "1.5", "one", "+-1", "-+1", "++1", "1-"] {
        assert_eq!(parse_u32(text), None, "{:?}", text);
        assert_eq!(parse_i32(text), None, "{:?}", text);
    }
}

#[test]
fn digits_beyond_ascii_are_refused() {
    assert_eq!(parse_u32("\u{0661}\u{0662}"), None);
    assert_eq!(parse_i32("\u{ff11}"), None);
    assert_eq!(parse_i32("-\u{ff11}"), None);
    assert_eq!(parse_u32("1\u{e9}"), None);
}

#[test]
fn signed_numbers_take_either_sign() {
    assert_eq!(parse_i32("0"), Some(0));
    assert_eq!(parse_i32("-0"), Some(0));
    assert_eq!(parse_i32("+0"), Some(0));
    assert_eq!(parse_i32("21"), Some(21));
    assert_eq!(parse_i32("+21"), Some(21));
    assert_eq!(parse_i32("-1920"), Some(-1920));
    assert_eq!(parse_i32("-0001920"), Some(-1920));
}

#[test]
fn signed_numbers_end_at_the_limits_of_i32() {
    assert_eq!(parse_i32("2147483647"), Some(i32::MAX));
    assert_eq!(parse_i32("2147483648"), None);
    assert_eq!(parse_i32("-2147483648"), Some(i32::MIN));
    assert_eq!(parse_i32("-2147483649"), None);
    assert_eq!(parse_i32("4294967295"), None);
}

#[test]
fn numbers_are_read_as_the_standard_library_reads_them() {
    let samples = [
        "", "0", "1", "9", "10", "+10", "-10", "0010", "2147483647", "2147483648", "-2147483648",
        "-2147483649", "4294967295", "4294967296", "+4294967295", "-", "+", "a", "1a", "a1",
        " 7", "7 ", "7\n", "--7", "+-7", "1e3", "\u{ff11}", "18446744073709551616",
    ];
    for text in samples {
        assert_eq!(parse_u32(text), text.parse::<u32>().ok(), "{:?}", text);
        assert_eq!(parse_i32(text), text.parse::<i32>().ok(), "{:?}", text);
    }
}

#[test]
fn every_written_number_is_read_back() {
    for n in [0u32, 1, 9, 10, 99, 100, 65535, 65536, 2147483647, 2147483648, u32::MAX] {
        assert_eq!(parse_u32(&n.to_string()), Some(n));
    }
    for n in [i32::MIN, -65536, -10, -1, 0, 1, 10, 65536, i32::MAX] {
        assert_eq!(parse_i32(&n.to_string()), Some(n));
    }
}

#[test]
fn options_are_taken_in_either_case() {
    assert!(matches_token("/L", "/L"));
    assert!(matches_token("/l", "/L"));
    assert!(matches_token("/L", "/l"));
    assert!(matches_token("/?", "/?"));
    assert!(matches_token("", ""));
}

#[test]
fn options_differ_where_more_than_case_differs() {
    assert!(!matches_token("/L", "/A"));
    assert!(!matches_token("/L ", "/L"));
    assert!(!matches_token("L", "/L"));
    assert!(!matches_token("/LL", "/L"));
    assert!(!matches_token("", "/L"));
    // '@' and '`' stand 32 apart like a capital and its small letter, but are none.
    assert!(!matches_token("@", "`"));
    assert!(!matches_token("[", "{"));
    assert!(!matches_token("\u{c9}", "\u{e9}"));
}
