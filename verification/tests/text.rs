use screen_locker::text::{
    chars_of, find, is_text, is_whitespace, parse_number, push_decimal, push_joined,
    push_signed_decimal, split, to_ascii_uppercase, trim,
};

fn trimmed(s: &str) -> String {
    trim(&chars_of(s)).iter().collect()
}

fn pieces(s: &str, sep: char) -> Vec<String> {
    split(&chars_of(s), sep)
        .iter()
        .map(|p| p.iter().collect())
        .collect()
}

fn number(s: &str, max: u64) -> Option<u64> {
    parse_number(&chars_of(s), max)
}

fn decimal(n: u64) -> String {
    let mut s = String::new();
    push_decimal(&mut s, n);
    s
}

#[test]
fn white_space_is_that_of_unicode() {
    for c in (0..=0x10ffffu32).filter_map(char::from_u32) {
        assert_eq!(is_whitespace(c), c.is_whitespace(), "{:?}", c);
    }
}

#[test]
fn trimming_takes_white_space_off_both_ends() {
    for s in [
        "", " ", "a", " a", "a ", "  a b  ", "\t\r\n a\u{a0}", "\u{3000}\u{2003}x", "a\u{200b}",
        "\u{1680}", "  \u{e9} ",
    ] {
        assert_eq!(trimmed(s), s.trim(), "{:?}", s);
    }
}

#[test]
fn splitting_gives_one_piece_more_than_separators() {
    for s in ["", "+", "a", "a+b", "+a", "a+", "a++b", "Ctrl + Alt+\u{e9}"] {
        let expected: Vec<String> = s.split('+').map(str::to_string).collect();
        assert_eq!(pieces(s, '+'), expected, "{:?}", s);
    }
}

#[test]
fn finding_stops_at_the_first_match() {
    assert_eq!(find(&chars_of("a=b=c"), '='), 1);
    assert_eq!(find(&chars_of("abc"), '='), 3);
    assert_eq!(find(&chars_of(""), '='), 0);
    assert_eq!(find(&chars_of("=a"), '='), 0);
}

#[test]
fn upper_case_changes_ascii_letters_only() {
    for s in ["", "escape", "F12", "\u{e9}A\u{df}z", "@[`{"] {
        let u: String = to_ascii_uppercase(&chars_of(s)).iter().collect();
        assert_eq!(u, s.to_ascii_uppercase(), "{:?}", s);
    }
}

#[test]
fn texts_are_compared_whole() {
    assert!(is_text(&chars_of("ESC"), "ESC"));
    assert!(!is_text(&chars_of("ESC"), "ESCAPE"));
    assert!(!is_text(&chars_of("ESD"), "ESC"));
    assert!(is_text(&chars_of(""), ""));
}

#[test]
fn numbers_are_read_as_the_standard_library_reads_them() {
    for s in [
        "", "+", "-", "0", "00", "007", "+7", "++7", "-0", "-7", "12a", " 12", "1_0", "4294967295",
        "4294967296", "18446744073709551615", "18446744073709551616", "99999999999999999999999",
        "\u{664}",
    ] {
        assert_eq!(number(s, u64::MAX), s.parse::<u64>().ok(), "{:?}", s);
        assert_eq!(
            number(s, u32::MAX as u64),
            s.parse::<u32>().ok().map(u64::from),
            "{:?}",
            s
        );
    }
}

#[test]
fn numbers_above_the_bound_are_refused() {
    assert_eq!(number("24", 24), Some(24));
    assert_eq!(number("25", 24), None);
    assert_eq!(number("0", 0), Some(0));
    assert_eq!(number("9", 8), None);
}

#[test]
fn decimal_numbers_read_back() {
    for n in [0, 1, 9, 10, 99, 100, 12345, u32::MAX as u64, u64::MAX] {
        assert_eq!(decimal(n), n.to_string());
        assert_eq!(number(&decimal(n), u64::MAX), Some(n));
    }
}

#[test]
fn signed_numbers_have_a_minus_sign() {
    for n in [0, 7, -7, 1920, -1080, i32::MAX, i32::MIN] {
        let mut s = String::from("=");
        push_signed_decimal(&mut s, n);
        assert_eq!(s, format!("={}", n));
    }
}

#[test]
fn joining_puts_the_separator_between() {
    for parts in [vec![], vec!["a"], vec!["a", "b"], vec!["a", "", "c"]] {
        let owned: Vec<String> = parts.iter().map(|p| p.to_string()).collect();
        let mut s = String::from("> ");
        push_joined(&mut s, &owned, ", ");
        assert_eq!(s, format!("> {}", parts.join(", ")));
    }
}
