use wye::decimal::{chars_of, format_u32, parse_digits, parse_u32, push_decimal};

#[test]
fn parses_plain_numbers() {
    assert_eq!(parse_u32("0"), Some(0));
    assert_eq!(parse_u32("7"), Some(7));
    assert_eq!(parse_u32("42"), Some(42));
    assert_eq!(parse_u32("1234567890"), Some(1234567890));
}

#[test]
fn parses_leading_zeros() {
    assert_eq!(parse_u32("007"), Some(7));
    assert_eq!(parse_u32("0000000000000000000000012"), Some(12));
}

#[test]
fn parses_one_plus_sign() {
    assert_eq!(parse_u32("+5"), Some(5));
    assert_eq!(parse_u32("+0"), Some(0));
    assert_eq!(parse_u32("++5"), None);
    assert_eq!(parse_u32("+"), None);
    assert_eq!(parse_u32("5+"), None);
}

#[test]
fn rejects_what_is_no_number() {
    assert_eq!(parse_u32(""), None);
    assert_eq!(parse_u32("-"), None);
    assert_eq!(parse_u32("-1"), None);
    assert_eq!(parse_u32("-0"), None);
    assert_eq!(parse_u32("12a"), None);
    assert_eq!(parse_u32("a12"), None);
    assert_eq!(parse_u32(" 1"), None);
    assert_eq!(parse_u32("1 "), None);
    assert_eq!(parse_u32("1_000"), None);
    assert_eq!(parse_u32("0x10"), None);
    assert_eq!(parse_u32("\u{ff11}"), None);
    assert_eq!(parse_u32("\u{0661}"), None);
}

#[test]
fn parses_up_to_the_greatest_number() {
    assert_eq!(parse_u32("4294967295"), Some(u32::MAX));
    assert_eq!(parse_u32("+4294967295"), Some(u32::MAX));
    assert_eq!(parse_u32("04294967295"), Some(u32::MAX));
    assert_eq!(parse_u32("4294967296"), None);
    assert_eq!(parse_u32("4294967300"), None);
    assert_eq!(parse_u32("42949672950"), None);
    assert_eq!(parse_u32("99999999999999999999999999999"), None);
}

#[test]
fn parsing_agrees_with_the_standard_library() {
    let samples = [
        "", "0", "1", "9", "10", "+", "-", "+1", "-1", "+-1", "++1", "00", "0010", "4294967295",
        "4294967296", "18446744073709551616", "1a", "a1", "1.0", "1e3", " 7", "7 ", "\t7", "7\n",
        "\u{ff17}", "٣", "+00000000004294967295", "429496729x", "4294967296x", "x4294967296",
    ];
    for text in samples {
        assert_eq!(parse_u32(text), text.parse::<u32>().ok(), "on {:?}", text);
    }
}

#[test]
fn parses_from_a_position() {
    let chars = chars_of("-s12");
    assert_eq!(parse_digits(&chars, 2), Some(12));
    assert_eq!(parse_digits(&chars, 3), Some(2));
    assert_eq!(parse_digits(&chars, 4), None);
    assert_eq!(parse_digits(&chars, 5), None);
    assert_eq!(parse_digits(&chars, usize::MAX), None);
    assert_eq!(parse_digits(&chars, 0), None);
    assert_eq!(parse_digits(&chars, 1), None);
}

#[test]
fn chars_are_those_of_the_text() {
    assert_eq!(chars_of(""), Vec::<char>::new());
    assert_eq!(chars_of("wye"), vec!['w', 'y', 'e']);
    assert_eq!(chars_of("é-1"), vec!['é', '-', '1']);
}

#[test]
fn formats_without_sign_or_leading_zeros() {
    assert_eq!(format_u32(0), "0");
    assert_eq!(format_u32(7), "7");
    assert_eq!(format_u32(10), "10");
    assert_eq!(format_u32(109), "109");
    assert_eq!(format_u32(1000), "1000");
    assert_eq!(format_u32(u32::MAX), "4294967295");
}

#[test]
fn formatting_agrees_with_the_standard_library() {
    let mut n: u32 = 0;
    for step in 0..2000u32 {
        assert_eq!(format_u32(n), n.to_string());
        n = n.wrapping_mul(2654435761).wrapping_add(step);
    }
    for n in 0..1200u32 {
        assert_eq!(format_u32(n), n.to_string());
    }
}

#[test]
fn appends_digits_to_text() {
    let mut text = String::from("wye-");
    push_decimal(&mut text, 305);
    assert_eq!(text, "wye-305");
    push_decimal(&mut text, 0);
    assert_eq!(text, "wye-3050");
}

#[test]
fn formatting_then_parsing_gives_the_number_back() {
    for n in [0u32, 1, 9, 10, 99, 100, 65535, 65536, 999999999, 1000000000, u32::MAX - 1, u32::MAX] {
        assert_eq!(parse_u32(&format_u32(n)), Some(n));
    }
}
