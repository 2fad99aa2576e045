use tsm::text::{constant_time_eq, contains_text, is_plain_identifier, join3, same_text};

#[test]
fn constant_time_eq_is_equality_of_text() {
    assert!(constant_time_eq("", ""));
    assert!(constant_time_eq("a", "a"));
    assert!(constant_time_eq("token-123", "token-123"));
    assert!(constant_time_eq("gr\u{fc}\u{df}e", "gr\u{fc}\u{df}e"));
    assert!(!constant_time_eq("", "a"));
    assert!(!constant_time_eq("a", ""));
    assert!(!constant_time_eq("a", "b"));
    assert!(!constant_time_eq("token-123", "token-124"));
    assert!(!constant_time_eq("token-123", "Token-123"));
    assert!(!constant_time_eq("token-123", "token-1234"));
    assert!(!constant_time_eq("xoken-123", "token-123"));
    assert!(!constant_time_eq("\u{e9}", "e\u{301}"));
    assert!(!constant_time_eq("\u{0}", "\u{80}"));
}

#[test]
fn constant_time_eq_agrees_with_equality_on_all_pairs() {
    let samples = ["", "a", "b", "ab", "ba", "abc", "abd", "\u{ff}", "\u{100}", "a\u{0}", "a\u{0}b"];
    for x in samples {
        for y in samples {
            assert_eq!(constant_time_eq(x, y), x == y, "{x:?} {y:?}");
            assert_eq!(same_text(x, y), x == y, "{x:?} {y:?}");
        }
    }
}

#[test]
fn join3_joins_in_order() {
    assert_eq!(join3("a", "b", "c"), "abc");
    assert_eq!(join3("", "", ""), "");
    assert_eq!(join3("x", "", "z"), "xz");
    assert_eq!(join3("https://", "h\u{f6}st", "/path"), "https://h\u{f6}st/path");
}

#[test]
fn contains_text_looks_at_every_element() {
    let list = vec!["a".to_string(), "bb".to_string(), "".to_string()];
    assert!(contains_text(&list, "a"));
    assert!(contains_text(&list, "bb"));
    assert!(contains_text(&list, ""));
    assert!(!contains_text(&list, "b"));
    assert!(!contains_text(&list, "A"));
    assert!(!contains_text(&vec![], ""));
    assert!(!contains_text(&vec![], "a"));
}

#[test]
fn plain_identifier_is_letters_digits_dash_dot_underscore() {
    for ok in ["a", "Z", "0", "a-", "a.", "a_", "0..", "contoso.onmicrosoft.com", "72f988bf-86f1-41af"] {
        assert!(is_plain_identifier(ok), "{ok:?}");
    }
    for bad in [
        "", " ", "a b", "a/b", "a\\b", "a:b", "a%20b", "a+b", "a\u{e9}", "\u{0}", "a\n", "`", "{", "@", "[",
        "-", ".", "_", "..", "...", "-a", ".a", "_a", "\u{e9}a",
    ] {
        assert!(!is_plain_identifier(bad), "{bad:?}");
    }
}
