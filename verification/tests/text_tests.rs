use mc_scraper::checksum::body_checksum;
use mc_scraper::text::{decimal_string, parse_u32, split_first_two, trim};

#[test]
fn decimal_string_formats_like_display() {
    assert_eq!(decimal_string(0), "0");
    assert_eq!(decimal_string(7), "7");
    assert_eq!(decimal_string(10), "10");
    assert_eq!(decimal_string(1234567890), "1234567890");
    assert_eq!(decimal_string(u32::MAX), u32::MAX.to_string());
}

#[test]
fn parse_u32_accepts_digits_and_plus() {
    assert_eq!(parse_u32("42"), Some(42));
    assert_eq!(parse_u32("+7"), Some(7));
    assert_eq!(parse_u32("007"), Some(7));
    assert_eq!(parse_u32("4294967295"), Some(u32::MAX));
}

#[test]
fn parse_u32_rejects_what_str_parse_rejects() {
    for s in ["", "+", "-1", "4294967296", "12a", " 1", "1 ", "++1", "Next"] {
        assert_eq!(parse_u32(s), s.parse::<u32>().ok(), "input {:?}", s);
        assert_eq!(parse_u32(s), None);
    }
}

#[test]
fn parse_u32_roundtrips_decimal_string() {
    for n in [0u32, 1, 9, 10, 99, 100, 65535, 4294967295] {
        assert_eq!(parse_u32(decimal_string(n).as_str()), Some(n));
    }
}

#[test]
fn trim_removes_unicode_whitespace() {
    assert_eq!(trim("  a b \n"), "a b");
    assert_eq!(trim("\u{3000}x\u{a0}"), "x");
    assert_eq!(trim("   "), "");
    assert_eq!(trim(""), "");
    for s in ["\t2002 | TV\r\n", "\u{2009}y\u{85}", "no-space"] {
        assert_eq!(trim(s), s.trim());
    }
}

#[test]
fn split_first_two_gives_first_pieces() {
    assert_eq!(split_first_two("2002 | TV | extra", " | "), ("2002", Some("TV")));
    assert_eq!(split_first_two("2002 | TV", " | "), ("2002", Some("TV")));
    assert_eq!(split_first_two("2002", " | "), ("2002", None));
    assert_eq!(split_first_two(" | ", " | "), ("", Some("")));
    assert_eq!(split_first_two("a || b", " | "), ("a || b", None));
}

#[test]
fn body_checksum_is_adler32() {
    assert_eq!(body_checksum("Wikipedia"), 0x11E6_0398);
    assert_eq!(body_checksum(""), 1);
    assert_eq!(body_checksum("a"), 0x0062_0062);
    assert_eq!(body_checksum("abc"), 0x024d_0127);
}
