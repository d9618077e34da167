//! Text.
use inferrs::text::{
    contains_text, decimal_text, ends_with, eq_ignore_ascii_case, find_char, is_text_le,
    is_white_space, replace, rfind_char, same_text, starts_with, strip_prefix, trim, trim_end_char,
};

#[test]
fn white_space_is_that_of_unicode() {
    for c in '\0'..=char::MAX {
        assert_eq!(is_white_space(c), c.is_whitespace(), "{c:?}");
    }
}

const WORDS: [&str; 14] = [
    "", "a", "A", "ab", "aB", "b", "é", "É", "日本", "日", "--", "a--b---c", " \t a b\u{2003}", "BAB",
];

#[test]
fn text_functions_agree_with_std() {
    for a in WORDS {
        assert_eq!(trim(a), a.trim());
        assert_eq!(trim_end_char(a, 'B'), a.trim_end_matches('B'));
        assert_eq!(find_char(a, 'B'), a.chars().position(|c| c == 'B'));
        assert_eq!(rfind_char(a, '日'), a.chars().collect::<Vec<_>>().iter().rposition(|c| *c == '日'));
        assert_eq!(replace(a, "--", "/"), a.replace("--", "/"));
        for b in WORDS {
            assert_eq!(same_text(a, b), a == b);
            assert_eq!(starts_with(a, b), a.starts_with(b));
            assert_eq!(ends_with(a, b), a.ends_with(b));
            assert_eq!(contains_text(a, b), a.contains(b));
            assert_eq!(strip_prefix(a, b), a.strip_prefix(b));
            assert_eq!(eq_ignore_ascii_case(a, b), a.eq_ignore_ascii_case(b));
            assert_eq!(is_text_le(a, b), a <= b);
        }
    }
}

#[test]
fn case_is_ignored_for_ascii_letters_alone() {
    for c in '\0'..'\u{250}' {
        for d in '\0'..'\u{250}' {
            assert_eq!(
                eq_ignore_ascii_case(&c.to_string(), &d.to_string()),
                c.eq_ignore_ascii_case(&d)
            );
        }
    }
}

#[test]
fn numbers_are_written_in_decimal() {
    for n in [0usize, 9, 10, 105, usize::MAX] {
        assert_eq!(decimal_text(n), n.to_string());
    }
}
