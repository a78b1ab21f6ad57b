use sidecar_supervisor::decimal::{decimal_chars, parse_u32};
use sidecar_supervisor::listing::parse_pid_listing;
use sidecar_supervisor::text::{chars_of, has_suffix, has_text, same_text, string_of, trim_bounds, CharClass};

fn parse(text: &str) -> Option<u32> {
    let v = chars_of(text);
    parse_u32(&v, 0, v.len())
}

#[test]
fn decimal_chars_writes_digits_without_leading_zeros() {
    assert_eq!(decimal_chars(0), vec!['0']);
    assert_eq!(decimal_chars(7), vec!['7']);
    assert_eq!(decimal_chars(10), vec!['1', '0']);
    assert_eq!(decimal_chars(65535).iter().collect::<String>(), "65535");
    assert_eq!(decimal_chars(4294967295).iter().collect::<String>(), "4294967295");
    assert_eq!(decimal_chars(u64::MAX).iter().collect::<String>(), "18446744073709551615");
}

#[test]
fn parse_u32_accepts_digits_and_a_leading_plus() {
    assert_eq!(parse("0"), Some(0));
    assert_eq!(parse("1234"), Some(1234));
    assert_eq!(parse("+42"), Some(42));
    assert_eq!(parse("0000000000000017"), Some(17));
    assert_eq!(parse("4294967295"), Some(u32::MAX));
}

#[test]
fn parse_u32_rejects_everything_else() {
    assert_eq!(parse(""), None);
    assert_eq!(parse("+"), None);
    assert_eq!(parse("-1"), None);
    assert_eq!(parse("++1"), None);
    assert_eq!(parse("12a"), None);
    assert_eq!(parse(" 12"), None);
    assert_eq!(parse("1 2"), None);
    assert_eq!(parse("4294967296"), None);
    assert_eq!(parse("99999999999999999999999"), None);
    assert_eq!(parse("\u{0661}"), None);
}

#[test]
fn parse_u32_agrees_with_the_standard_parser() {
    for text in ["0", "7", "+7", "-7", "", "+", "007", "4294967295", "4294967296", "12x", "x12"] {
        assert_eq!(parse(text), text.parse::<u32>().ok());
    }
}

#[test]
fn parse_u32_reads_decimal_chars_back() {
    for n in [0u32, 1, 9, 10, 99, 100, 12345, u32::MAX] {
        let digits = decimal_chars(n as u64);
        assert_eq!(parse_u32(&digits, 0, digits.len()), Some(n));
    }
}

#[test]
fn pid_listing_takes_one_number_per_line() {
    assert_eq!(parse_pid_listing("123\n456\n", false), vec![123, 456]);
    assert_eq!(parse_pid_listing("  123 \r\n\t456\r\n789", false), vec![123, 456, 789]);
    assert_eq!(parse_pid_listing("", false), Vec::<u32>::new());
    assert_eq!(parse_pid_listing("\n\n", false), Vec::<u32>::new());
    assert_eq!(parse_pid_listing("12 34\nabc\n-5\n6", false), vec![6]);
}

#[test]
fn pid_listing_skips_a_header_line() {
    assert_eq!(parse_pid_listing("ProcessId  \r\n4120  \r\n980  \r\n\r\n", true), vec![4120, 980]);
    assert_eq!(parse_pid_listing("77\n88\n", true), vec![88]);
    assert_eq!(parse_pid_listing("77", true), Vec::<u32>::new());
    assert_eq!(parse_pid_listing("", true), Vec::<u32>::new());
}

#[test]
fn pid_listing_agrees_with_line_by_line_parsing() {
    for text in ["1\n2\n3", "1\r\n2\r\n", "\n5", "a\n\n 9 \n", "10\n+11\n-12\n"] {
        let expected: Vec<u32> = text.lines().filter_map(|l| l.trim().parse::<u32>().ok()).collect();
        assert_eq!(parse_pid_listing(text, false), expected);
        let skipped: Vec<u32> =
            text.lines().skip(1).filter_map(|l| l.trim().parse::<u32>().ok()).collect();
        assert_eq!(parse_pid_listing(text, true), skipped);
    }
}

#[test]
fn trim_bounds_narrows_from_both_ends() {
    let v = chars_of("..  name.txt ..");
    let (a, b) = trim_bounds(&v, 0, v.len(), CharClass::Dot);
    assert_eq!(string_of(&v, a, b), "  name.txt ");
    let (c, d) = trim_bounds(&v, a, b, CharClass::Whitespace);
    assert_eq!(string_of(&v, c, d), "name.txt");
    let blank = chars_of(" \t\u{2028}");
    assert_eq!(trim_bounds(&blank, 0, blank.len(), CharClass::Whitespace), (3, 3));
}

#[test]
fn whitespace_class_agrees_with_the_standard_library() {
    for code in 0u32..0x3100 {
        if let Some(c) = char::from_u32(code) {
            assert_eq!(CharClass::Whitespace.contains(c), c.is_whitespace(), "U+{:04X}", code);
        }
    }
}

#[test]
fn text_search_finds_needles() {
    let hay = chars_of("libfoo.so.1.2");
    assert!(has_text(&hay, &chars_of(".so.")));
    assert!(has_text(&hay, &chars_of("")));
    assert!(!has_text(&hay, &chars_of(".so.x")));
    assert!(has_suffix(&hay, &chars_of(".2")));
    assert!(!has_suffix(&hay, &chars_of(".so")));
    assert!(!has_suffix(&chars_of("so"), &chars_of(".so")));
    assert!(same_text("abc", "abc"));
    assert!(!same_text("abc", "abd"));
    assert!(!same_text("abc", "ab"));
}
