use editor_kit::text::{chars_of, decimal_text, find, join_text, same_text, split_text};

#[test]
fn texts_are_compared_by_characters() {
    assert!(same_text("", ""));
    assert!(same_text("aé⌘", "aé⌘"));
    assert!(!same_text("a", "ab"));
    assert!(!same_text("ab", "a"));
    assert!(!same_text("ab", "ac"));
    assert_eq!(chars_of("aé⌘"), vec!['a', 'é', '⌘']);
}

#[test]
fn split_is_that_of_std() {
    for text in ["", "a", "::", ":::", "a::b", "a:::b", "::a::", "é::⌘::", "a:b", "::::"] {
        let expected: Vec<String> = text.split("::").map(|part| part.to_string()).collect();
        assert_eq!(split_text(text, "::"), expected);
    }
    for text in ["", "-", "--", "a-b", "-a-", "é-⌘"] {
        let expected: Vec<String> = text.split('-').map(|part| part.to_string()).collect();
        assert_eq!(split_text(text, "-"), expected);
    }
    assert_eq!(split_text("a:::b", "::"), vec!["a".to_string(), ":b".to_string()]);
}

#[test]
fn pieces_hold_no_separator() {
    for part in split_text("a:::b::::c", "::") {
        assert!(!part.contains("::"));
    }
}

#[test]
fn join_undoes_split() {
    for text in ["", "a", "::", ":::", "a::b::c", "::a::"] {
        assert_eq!(join_text(&split_text(text, "::"), "::"), text);
    }
    assert_eq!(join_text(&Vec::new(), "/"), "");
    assert_eq!(join_text(&vec!["a".to_string(), "b".to_string()], "/"), "a/b");
}

#[test]
fn find_counts_characters() {
    assert_eq!(find("é:a:", ":"), Some(1));
    assert_eq!(find("abc", ":"), None);
    assert_eq!(find("", ":"), None);
    assert_eq!(find("", ""), Some(0));
    assert_eq!(find("ab", "abc"), None);
    assert_eq!(find("aab", "ab"), Some(1));
}

#[test]
fn decimal_is_that_of_std() {
    for number in [0u16, 7, 9, 10, 99, 100, 404, 1005, 65535] {
        assert_eq!(decimal_text(number), number.to_string());
    }
}
