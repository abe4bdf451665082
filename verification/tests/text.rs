use sysfetch::text::{
    align_left, eq_ignore_ascii_case, lower_char, push_decimal, str_eq, to_decimal,
};

#[test]
fn capital_ascii_letters_are_lowered() {
    assert_eq!(lower_char('A'), 'a');
    assert_eq!(lower_char('M'), 'm');
    assert_eq!(lower_char('Z'), 'z');
}

#[test]
fn other_characters_are_left_alone() {
    for c in ['a', 'z', '0', '@', '[', '`', '{', ' ', '\n', '\u{c4}', '\u{e4}', '\u{212a}'] {
        assert_eq!(lower_char(c), c);
    }
}

#[test]
fn texts_are_compared_without_regard_to_ascii_case() {
    assert!(eq_ignore_ascii_case("", ""));
    assert!(eq_ignore_ascii_case("arch", "arch"));
    assert!(eq_ignore_ascii_case("ARCH", "arch"));
    assert!(eq_ignore_ascii_case("arch", "ArCh"));
    assert!(eq_ignore_ascii_case("Gr\u{fc}\u{df}e", "gR\u{fc}\u{df}E"));
}

#[test]
fn texts_that_differ_are_told_apart() {
    assert!(!eq_ignore_ascii_case("arch", "arc"));
    assert!(!eq_ignore_ascii_case("arc", "arch"));
    assert!(!eq_ignore_ascii_case("", "a"));
    assert!(!eq_ignore_ascii_case("arch", "arcx"));
    assert!(!eq_ignore_ascii_case("\u{c4}", "\u{e4}"));
    assert!(!eq_ignore_ascii_case("k", "\u{212a}"));
    assert!(!eq_ignore_ascii_case("@", "`"));
}

#[test]
fn exact_comparison_minds_the_case() {
    assert!(str_eq("", ""));
    assert!(str_eq("ubuntu", "ubuntu"));
    assert!(str_eq("\u{e4}\u{20ac}", "\u{e4}\u{20ac}"));
    assert!(!str_eq("ubuntu", "Ubuntu"));
    assert!(!str_eq("ubuntu", "ubunt"));
    assert!(!str_eq("ubunt", "ubuntu"));
    assert!(!str_eq("ubuntu", ""));
}

#[test]
fn numbers_are_written_in_decimal() {
    assert_eq!(to_decimal(0), "0");
    assert_eq!(to_decimal(7), "7");
    assert_eq!(to_decimal(9), "9");
    assert_eq!(to_decimal(10), "10");
    assert_eq!(to_decimal(99), "99");
    assert_eq!(to_decimal(100), "100");
    assert_eq!(to_decimal(305), "305");
    assert_eq!(to_decimal(1_234_567_890), "1234567890");
    assert_eq!(to_decimal(u64::MAX), "18446744073709551615");
}

#[test]
fn decimal_numerals_agree_with_the_standard_library() {
    for n in (0u64..5000).chain([65_535, 65_536, 999_999, 1_000_000, u64::MAX - 1]) {
        assert_eq!(to_decimal(n), format!("{n}"));
        assert_eq!(to_decimal(n).parse::<u64>().ok(), Some(n));
    }
}

#[test]
fn a_numeral_is_appended_to_what_is_there() {
    let mut text = String::from("n = ");
    push_decimal(&mut text, 42);
    assert_eq!(text, "n = 42");
    push_decimal(&mut text, 0);
    assert_eq!(text, "n = 420");
}

#[test]
fn short_texts_are_set_flush_left_and_padded() {
    assert_eq!(align_left("CPU", 10), "CPU       ");
    assert_eq!(align_left("Uptime", 10), "Uptime    ");
    assert_eq!(align_left("", 3), "   ");
    assert_eq!(align_left("ab", 3), "ab ");
}

#[test]
fn texts_that_fill_the_width_are_left_alone() {
    assert_eq!(align_left("abc", 3), "abc");
    assert_eq!(align_left("abcdef", 3), "abcdef");
    assert_eq!(align_left("", 0), "");
    assert_eq!(align_left("x", 0), "x");
}

#[test]
fn padding_counts_characters_not_bytes() {
    assert_eq!(align_left("\u{e4}\u{f6}", 4), "\u{e4}\u{f6}  ");
    assert_eq!(align_left("\u{20ac}\u{20ac}\u{20ac}", 3), "\u{20ac}\u{20ac}\u{20ac}");
}
