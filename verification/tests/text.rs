use ory_selfservice_rust::text::{contains, replace, same_text, starts_with, strip_prefix, trim_end_matches_char};

#[test]
fn replace_matches_std_replace() {
    let cases = [
        ("aaaa", "aa", "b"),
        ("abcabc", "bc", "X"),
        ("", "", "x"),
        ("abc", "", "-"),
        ("hello", "zz", "q"),
        ("a_b_c", "_", " "),
        ("ééé", "é", "e"),
    ];
    for (s, p, r) in cases {
        assert_eq!(replace(s, p, r), s.replace(p, r));
    }
}

#[test]
fn contains_and_starts_with() {
    assert!(contains("/self-service/login", "login"));
    assert!(!contains("abc", "abcd"));
    assert!(contains("abc", ""));
    assert!(starts_with("http://k/x", "http://k"));
    assert!(!starts_with("http", "http://k"));
}

#[test]
fn trim_and_strip() {
    assert_eq!(trim_end_matches_char("http://a///", '/'), "http://a");
    assert_eq!(trim_end_matches_char("////", '/'), "");
    assert_eq!(strip_prefix("http://k/a?b", "http://k"), Some("/a?b"));
    assert_eq!(strip_prefix("x", "http://k"), None);
    assert!(same_text("abc", "abc"));
    assert!(!same_text("abc", "abd"));
}
