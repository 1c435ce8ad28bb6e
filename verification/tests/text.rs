use rati::text::ends_with;
use rati::text::is_white_space;
use rati::text::parse_unsigned;
use rati::text::push_decimal;
use rati::text::rsplit_once;
use rati::text::same;
use rati::text::split_once;
use rati::text::starts_with;
use rati::text::starts_with_in_any_case;
use rati::text::strip_prefix;
use rati::text::trim;

const SAMPLES: [&str; 12] = [
    "",
    "?",
    "a",
    "a?b",
    "?a?",
    "a??b",
    "\u{fc}?\u{1f600}?x",
    " \t a b \u{3000}\n",
    "\u{a0}",
    "+12",
    "0012",
    "18446744073709551616",
];

#[test]
fn cutting_agrees_with_the_standard_library() {
    for s in SAMPLES {
        assert_eq!(split_once(s, '?'), s.split_once('?'));
        assert_eq!(rsplit_once(s, '?'), s.rsplit_once('?'));
        assert_eq!(trim(s), s.trim());
        assert_eq!(parse_unsigned(s), s.parse::<u64>().ok());
        for t in SAMPLES {
            assert_eq!(same(s, t), s == t);
            assert_eq!(starts_with(s, t), s.starts_with(t));
            assert_eq!(ends_with(s, t), s.ends_with(t));
            assert_eq!(
                starts_with_in_any_case(s, t),
                s.to_ascii_lowercase().starts_with(t)
            );
            assert_eq!(strip_prefix(s, t), s.strip_prefix(t));
        }
    }
}

#[test]
fn prefixes_in_any_case() {
    assert!(starts_with_in_any_case("AZaz@[`{", "azaz@[`{"));
    assert!(!starts_with_in_any_case("a", "A"));
    assert!(!starts_with_in_any_case("\u{212a}", "k"));
    assert!(!starts_with_in_any_case("HT", "http"));
}

#[test]
fn white_space_agrees_with_the_standard_library() {
    for c in '\0'..=char::MAX {
        assert_eq!(is_white_space(c), c.is_whitespace());
    }
}

#[test]
fn numbers_are_written_and_read_back() {
    for n in [0, 7, 10, 99, 100, 1_744_891_200, u64::MAX - 1, u64::MAX] {
        let mut out = String::from("n=");
        push_decimal(&mut out, n);
        assert_eq!(out, format!("n={n}"));
        assert_eq!(parse_unsigned(&out[2..]), Some(n));
    }
    for s in ["", "+", "-", "-0", "++1", "1 ", " 1", "1a", "\u{0661}", "18446744073709551616"] {
        assert_eq!(parse_unsigned(s), None);
    }
}
