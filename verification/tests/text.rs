use kimchi::text::{
    decimal, expand_tabs, is_whitespace, pad_left, pad_right, parse_usize, same_text, split_lines,
    split_words, starts_with, string_of, to_chars, truncate,
};

fn chars(s: &str) -> Vec<char> {
    s.chars().collect()
}

fn lines_of(s: &str) -> Vec<String> {
    split_lines(&chars(s)).iter().map(|l| l.iter().collect::<String>()).collect()
}

fn words_of(s: &str) -> Vec<String> {
    split_words(&chars(s)).iter().map(|l| l.iter().collect::<String>()).collect()
}

fn number(s: &str) -> Option<usize> {
    let v = chars(s);
    parse_usize(&v, 0, v.len())
}

#[test]
fn to_chars_keeps_every_character() {
    assert_eq!(to_chars("a\u{e9}\u{2500}z"), vec!['a', '\u{e9}', '\u{2500}', 'z']);
    assert_eq!(to_chars(""), Vec::<char>::new());
}

#[test]
fn string_of_takes_the_range() {
    let v = chars("hello");
    assert_eq!(string_of(&v, 1, 4), "ell");
    assert_eq!(string_of(&v, 2, 2), "");
    assert_eq!(string_of(&v, 0, 5), "hello");
}

#[test]
fn lines_split_at_line_feeds() {
    assert_eq!(lines_of("a\nb\nc"), vec!["a", "b", "c"]);
    assert_eq!(lines_of("a\nb\n"), vec!["a", "b"]);
    assert_eq!(lines_of(""), Vec::<String>::new());
    assert_eq!(lines_of("\n"), vec![""]);
    assert_eq!(lines_of("a\n\nb"), vec!["a", "", "b"]);
    assert_eq!(lines_of("one"), vec!["one"]);
}

#[test]
fn lines_drop_a_carriage_return_before_a_line_feed() {
    assert_eq!(lines_of("a\r\nb\r\n"), vec!["a", "b"]);
    assert_eq!(lines_of("a\r\r\nb"), vec!["a\r", "b"]);
    assert_eq!(lines_of("foo\nbar\n\r\nbaz\r"), vec!["foo", "bar", "", "baz\r"]);
    assert_eq!(lines_of("a\rb"), vec!["a\rb"]);
}

#[test]
fn lines_agree_with_the_standard_library() {
    let samples = ["", "\n", "a", "a\n", "a\r\n", "a\r", "\r\n\r\n", "x\ny\r\nz\n\n", "\n\nq"];
    for s in samples {
        let expected: Vec<String> = s.lines().map(|l| l.to_string()).collect();
        assert_eq!(lines_of(s), expected, "for {:?}", s);
    }
}

#[test]
fn words_split_at_white_space() {
    assert_eq!(words_of("@@ -1,2 +1,3 @@"), vec!["@@", "-1,2", "+1,3", "@@"]);
    assert_eq!(words_of("  a \t b\n"), vec!["a", "b"]);
    assert_eq!(words_of(""), Vec::<String>::new());
    assert_eq!(words_of(" \t "), Vec::<String>::new());
    assert_eq!(words_of("one"), vec!["one"]);
    assert_eq!(words_of("a\u{a0}b\u{3000}c"), vec!["a", "b", "c"]);
}

#[test]
fn whitespace_agrees_with_the_standard_library() {
    let mut c = 0u32;
    while c <= 0x10FFFF {
        if let Some(ch) = char::from_u32(c) {
            assert_eq!(is_whitespace(ch), ch.is_whitespace(), "for U+{:04X}", c);
        }
        c += 1;
    }
}

#[test]
fn starts_with_compares_the_prefix() {
    assert!(starts_with(&chars("@@ -1 +1 @@"), "@@"));
    assert!(starts_with(&chars("diff --git a b"), "diff --git"));
    assert!(!starts_with(&chars("dif"), "diff --git"));
    assert!(!starts_with(&chars("+new"), "+++"));
    assert!(starts_with(&chars("abc"), ""));
    assert!(starts_with(&chars(""), ""));
    assert!(!starts_with(&chars(""), "a"));
}

#[test]
fn same_text_is_equality() {
    assert!(same_text("APPROVED", "APPROVED"));
    assert!(!same_text("APPROVED", "APPROVE"));
    assert!(!same_text("APPROVE", "APPROVED"));
    assert!(!same_text("approved", "APPROVED"));
    assert!(same_text("", ""));
}

#[test]
fn parse_usize_reads_decimal_numbers() {
    assert_eq!(number("0"), Some(0));
    assert_eq!(number("12"), Some(12));
    assert_eq!(number("007"), Some(7));
    assert_eq!(number("+5"), Some(5));
    assert_eq!(number("18446744073709551615"), "18446744073709551615".parse::<usize>().ok());
}

#[test]
fn parse_usize_rejects_what_is_not_a_number() {
    assert_eq!(number(""), None);
    assert_eq!(number("+"), None);
    assert_eq!(number("-5"), None);
    assert_eq!(number("++5"), None);
    assert_eq!(number("1a"), None);
    assert_eq!(number("a1"), None);
    assert_eq!(number(" 1"), None);
    assert_eq!(number("1 "), None);
    assert_eq!(number("\u{661}"), None);
}

#[test]
fn parse_usize_rejects_numbers_that_do_not_fit() {
    assert_eq!(number("340282366920938463463374607431768211456"), None);
    assert_eq!(number("99999999999999999999999999"), None);
    let over = format!("{}0", usize::MAX);
    assert_eq!(number(&over), None);
    let with_zeros = format!("0000000000000000000000000{}", usize::MAX);
    assert_eq!(number(&with_zeros), Some(usize::MAX));
}

#[test]
fn parse_usize_reads_a_range() {
    let v = chars("-12,34");
    assert_eq!(parse_usize(&v, 1, 3), Some(12));
    assert_eq!(parse_usize(&v, 4, 6), Some(34));
    assert_eq!(parse_usize(&v, 0, 3), None);
    assert_eq!(parse_usize(&v, 3, 3), None);
}

#[test]
fn decimal_writes_numbers_without_leading_zeros() {
    assert_eq!(decimal(0), "0");
    assert_eq!(decimal(7), "7");
    assert_eq!(decimal(10), "10");
    assert_eq!(decimal(1234567890), "1234567890");
    assert_eq!(decimal(u64::MAX as u128), "18446744073709551615");
    assert_eq!(decimal(u128::MAX), "340282366920938463463374607431768211455");
}

#[test]
fn parse_reads_back_what_decimal_wrote() {
    for n in [0usize, 1, 9, 10, 99, 100, 65535, 4294967295, usize::MAX] {
        assert_eq!(number(&decimal(n as u128)), Some(n));
    }
}

#[test]
fn padding_fills_with_spaces() {
    assert_eq!(pad_left("7", 4), "   7");
    assert_eq!(pad_left("", 4), "    ");
    assert_eq!(pad_left("12345", 4), "12345");
    assert_eq!(pad_left("1234", 4), "1234");
    assert_eq!(pad_right("42", 5), "42   ");
    assert_eq!(pad_right("123456", 5), "123456");
    assert_eq!(pad_right("\u{e9}", 3), "\u{e9}  ");
}

#[test]
fn tabs_become_four_spaces() {
    assert_eq!(expand_tabs("\tx"), "    x");
    assert_eq!(expand_tabs("a\tb\t"), "a    b    ");
    assert_eq!(expand_tabs("none"), "none");
    assert_eq!(expand_tabs(""), "");
}

#[test]
fn truncate_marks_the_cut() {
    assert_eq!(truncate("octocat", 12), "octocat");
    assert_eq!(truncate("exactly12chr", 12), "exactly12chr");
    assert_eq!(truncate("a-very-long-author", 12), "a-very-long\u{2026}");
    assert_eq!(truncate("abc", 1), "\u{2026}");
    assert_eq!(truncate("abc", 0), "\u{2026}");
    assert_eq!(truncate("", 0), "");
    assert_eq!(truncate("\u{e9}\u{e9}\u{e9}\u{e9}", 3), "\u{e9}\u{e9}\u{2026}");
}

#[test]
fn parse_usize_agrees_with_the_standard_library() {
    let samples = [
        "", "0", "1", "+1", "-1", "+", "-", "++1", "+-1", "00", "+00", "1_000", "12a", "a12",
        " 12", "12 ", "1.5", "0x10", "4294967295", "4294967296", "18446744073709551615",
        "18446744073709551616", "+18446744073709551615", "000000000000000000000000000001",
        "99999999999999999999", "\u{ff11}", "1\u{0}",
    ];
    for s in samples {
        assert_eq!(number(s), s.parse::<usize>().ok(), "for {:?}", s);
    }
}
