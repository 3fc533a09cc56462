use mudkip::text::{join2, join3, join4, starts_with_dash, strip_prefix};

#[test]
fn a_prefix_is_taken_from_the_front() {
    assert_eq!(strip_prefix("--theme=dark", "--theme="), Some("dark"));
    assert_eq!(strip_prefix("--theme=", "--theme="), Some(""));
    assert_eq!(strip_prefix("--theme", "--theme="), None);
    assert_eq!(strip_prefix("-theme=dark", "--theme="), None);
    assert_eq!(strip_prefix("", "--theme="), None);
    assert_eq!(strip_prefix("anything", ""), Some("anything"));
    assert_eq!(strip_prefix("\u{e9}t\u{e9}=1", "\u{e9}t\u{e9}="), Some("1"));
    assert_eq!(strip_prefix("--toc=\u{e9}t\u{e9}", "--toc="), Some("\u{e9}t\u{e9}"));
}

#[test]
fn a_flag_starts_with_a_dash() {
    assert!(starts_with_dash("-"));
    assert!(starts_with_dash("--"));
    assert!(starts_with_dash("-x"));
    assert!(!starts_with_dash(""));
    assert!(!starts_with_dash("x-"));
    assert!(!starts_with_dash("\u{2013}x"));
}

#[test]
fn pieces_are_joined_in_order() {
    assert_eq!(join2("a", "b"), "ab");
    assert_eq!(join3("a", "", "c"), "ac");
    assert_eq!(join4("a", "b", "c", "d"), "abcd");
}
