use tmux_popup::text::{contains, trim_whitespace};

#[test]
fn trim_removes_whitespace_at_both_ends() {
    assert_eq!(trim_whitespace("  hello  "), "hello");
    assert_eq!(trim_whitespace("\thello\n"), "hello");
    assert_eq!(trim_whitespace("hello"), "hello");
    assert_eq!(trim_whitespace("hello world "), "hello world");
    assert_eq!(trim_whitespace(" a b  c "), "a b  c");
}

#[test]
fn trim_of_whitespace_is_empty() {
    assert_eq!(trim_whitespace(""), "");
    assert_eq!(trim_whitespace(" "), "");
    assert_eq!(trim_whitespace(" \t\r\n "), "");
}

#[test]
fn trim_knows_unicode_whitespace() {
    assert_eq!(trim_whitespace("\u{2003}wide\u{a0}"), "wide");
    assert_eq!(trim_whitespace("\u{3000}日本\u{3000}語\u{3000}"), "日本\u{3000}語");
    assert_eq!(trim_whitespace("\u{200b}x"), "\u{200b}x");
}

#[test]
fn trim_agrees_with_the_standard_library() {
    let inputs = ["", " ", "a", " a", "a ", " a ", "\n a b \n", "é ", " 😀", "\u{85}x\u{2028}"];
    for input in inputs {
        assert_eq!(trim_whitespace(input), input.trim());
    }
}

#[test]
fn contains_finds_a_run_anywhere() {
    assert!(contains("hello world", "hello"));
    assert!(contains("hello world", "world"));
    assert!(contains("hello world", "lo wo"));
    assert!(contains("hello world", "hello world"));
    assert!(contains("aab", "ab"));
    assert!(contains("abababc", "ababc"));
}

#[test]
fn contains_rejects_what_is_not_there() {
    assert!(!contains("hello world", "worlds"));
    assert!(!contains("hello", "hello world"));
    assert!(!contains("abc", "ac"));
    assert!(!contains("", "a"));
    assert!(!contains("ababab", "abba"));
}

#[test]
fn the_empty_text_is_in_every_text() {
    assert!(contains("abc", ""));
    assert!(contains("", ""));
}

#[test]
fn contains_agrees_with_the_standard_library() {
    let hays = ["", "a", "abc", "aaa", "日本語", "naïve café", "x,y,z"];
    let needles = ["", "a", "b", "aa", "bc", "本", "ï", "é", ",y", "z,"];
    for hay in hays {
        for needle in needles {
            assert_eq!(contains(hay, needle), hay.contains(needle));
        }
    }
}
