use edge_proxy::text::{chars_of, find_first, matches_at, remove_first, starts_with, strip_prefix};

fn chars(s: &str) -> Vec<char> {
    s.chars().collect()
}

#[test]
fn chars_of_lists_every_character() {
    assert_eq!(chars_of(""), Vec::<char>::new());
    assert_eq!(chars_of("a/b"), vec!['a', '/', 'b']);
    assert_eq!(chars_of("é€x"), vec!['é', '€', 'x']);
}

#[test]
fn matches_at_checks_one_position() {
    assert!(matches_at(&chars("abcab"), &chars("ab"), 0));
    assert!(!matches_at(&chars("abcab"), &chars("ab"), 1));
    assert!(matches_at(&chars("abcab"), &chars("ab"), 3));
    assert!(!matches_at(&chars("abcab"), &chars("ab"), 4));
    assert!(matches_at(&chars("abc"), &chars(""), 3));
    assert!(!matches_at(&chars("abc"), &chars(""), 4));
    assert!(!matches_at(&chars("ab"), &chars("abc"), 0));
}

#[test]
fn find_first_is_leftmost() {
    assert_eq!(find_first(&chars("xxabxxab"), &chars("ab")), Some(2));
    assert_eq!(find_first(&chars("aaa"), &chars("aa")), Some(0));
    assert_eq!(find_first(&chars("abc"), &chars("c")), Some(2));
    assert_eq!(find_first(&chars("abc"), &chars("")), Some(0));
    assert_eq!(find_first(&chars(""), &chars("")), Some(0));
    assert_eq!(find_first(&chars("abc"), &chars("d")), None);
    assert_eq!(find_first(&chars("ab"), &chars("abc")), None);
}

#[test]
fn remove_first_cuts_one_occurrence() {
    assert_eq!(remove_first("a-b-c", "-"), "ab-c");
    assert_eq!(remove_first("abc", "abc"), "");
    assert_eq!(remove_first("abc", "x"), "abc");
    assert_eq!(remove_first("abc", ""), "abc");
    assert_eq!(remove_first("héllo wörld", "llo "), "héwörld");
}

#[test]
fn strip_prefix_cuts_only_at_the_start() {
    assert_eq!(strip_prefix("https://a.b", "https://"), "a.b");
    assert_eq!(strip_prefix("a.b/https://", "https://"), "a.b/https://");
    assert_eq!(strip_prefix("https://https://a", "https://"), "https://a");
    assert_eq!(strip_prefix("http", "https://"), "http");
}

#[test]
fn starts_with_agrees_with_std() {
    assert!(starts_with("/image/api/x", "/image/api"));
    assert!(starts_with("abc", ""));
    assert!(!starts_with("", "a"));
    assert!(!starts_with("/image", "/image/api"));
}

#[test]
fn removing_a_leading_pattern_strips_the_prefix() {
    for (s, pat) in [("/image/api/a.png", "/image/api"), ("aaa", "a"), ("abc", ""), ("abc", "abc")] {
        assert!(starts_with(s, pat));
        assert_eq!(remove_first(s, pat), strip_prefix(s, pat));
    }
}
