use photolibrariancore::text::{
    chars_of, contains_text, digit_text, parse_usize, push_decimal, push_signed, same_text,
    white_space,
};

fn decimal_of(n: u128) -> String {
    let mut out = String::from("<");
    push_decimal(&mut out, n);
    out
}

fn signed_of(n: i64) -> String {
    let mut out = String::new();
    push_signed(&mut out, n);
    out
}

#[test]
fn decimals_have_no_leading_zeros() {
    for n in [0u128, 7, 10, 99, 100, 4242, u64::MAX as u128, u128::MAX] {
        assert_eq!(decimal_of(n), format!("<{}", n));
    }
    assert_eq!(digit_text(4), "4");
}

#[test]
fn signed_decimals_match_the_formatter() {
    for n in [0i64, -1, 1, -90, i64::MIN, i64::MAX] {
        assert_eq!(signed_of(n), format!("{}", n));
    }
}

#[test]
fn substring_search_agrees_with_std() {
    let cases = [
        ("", ""),
        ("abc", ""),
        ("", "a"),
        ("abc", "abc"),
        ("abc", "abcd"),
        ("aab", "ab"),
        ("aaab", "aab"),
        ("[focus_score]", "focus_score"),
        ("[rating]", "focus_score"),
        ("über focus", "focus"),
    ];
    for (hay, needle) in cases {
        assert_eq!(contains_text(hay, needle), hay.contains(needle), "{} in {}", needle, hay);
    }
}

#[test]
fn numbers_are_read_as_std_reads_them() {
    let cases = [
        "0", "14", " 14 ", "\t7\n", "+3", "++3", "+", "", "   ", "-1", "-0", "1 2", "12a", "0x10",
        "00042", "18446744073709551615", "18446744073709551616", "99999999999999999999999",
        "\u{a0}5\u{3000}", "1_000", "\u{661}",
    ];
    for raw in cases {
        assert_eq!(parse_usize(raw), raw.trim().parse::<usize>().ok(), "{:?}", raw);
    }
}

#[test]
fn white_space_is_that_of_unicode() {
    for v in 0u32..=0x10FFFF {
        if let Some(c) = char::from_u32(v) {
            assert_eq!(white_space(c), c.is_whitespace(), "{:x}", v);
        }
    }
}

#[test]
fn texts_compare_by_their_characters() {
    assert!(same_text("C", "C"));
    assert!(!same_text("C", "c"));
    assert_eq!(chars_of("aé-"), vec!['a', 'é', '-']);
}
