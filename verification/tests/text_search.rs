use twine::text::{chars_of, contains};

#[test]
fn chars_of_gives_each_character_once() {
    assert_eq!(chars_of("héllo"), vec!['h', 'é', 'l', 'l', 'o']);
    assert_eq!(chars_of(""), Vec::<char>::new());
}

#[test]
fn contains_finds_a_needle_in_the_middle() {
    assert!(contains("getyarn.io", "yarn"));
}

#[test]
fn contains_finds_a_needle_at_either_end() {
    assert!(contains("yarn-clip", "yarn"));
    assert!(contains("yarn-clip", "clip"));
    assert!(contains("xyz", "z"));
}

#[test]
fn contains_finds_the_whole_string() {
    assert!(contains("getyarn.io", "getyarn.io"));
}

#[test]
fn contains_finds_the_empty_needle_everywhere() {
    assert!(contains("abc", ""));
    assert!(contains("", ""));
}

#[test]
fn contains_rejects_a_needle_longer_than_the_text() {
    assert!(!contains("ab", "abc"));
    assert!(!contains("", "a"));
}

#[test]
fn contains_rejects_a_near_miss() {
    assert!(!contains("abc", "abd"));
    assert!(!contains("getyarn-io", "getyarn.io"));
    assert!(!contains("yarn clip", "yarn-clip"));
}

#[test]
fn contains_restarts_after_a_partial_match() {
    assert!(contains("aaab", "aab"));
    assert!(contains("ababac", "abac"));
}

#[test]
fn contains_counts_characters_not_bytes() {
    assert!(contains("héllo wörld", "wör"));
    assert!(contains("日本語のテキスト", "テキ"));
    assert!(!contains("héllo", "hello"));
}

#[test]
fn contains_is_case_sensitive() {
    assert!(!contains("GETYARN.IO", "getyarn.io"));
}
