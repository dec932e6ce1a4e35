use user_service::text::{chars_of, contains, contains_chars, decimal_string};

#[test]
fn chars_of_gives_scalar_values() {
    assert_eq!(chars_of(""), Vec::<char>::new());
    assert_eq!(chars_of("ab"), vec!['a', 'b']);
    assert_eq!(chars_of("a\u{e9}\u{1f600}"), vec!['a', '\u{e9}', '\u{1f600}']);
}

#[test]
fn contains_finds_a_pattern_anywhere() {
    assert!(contains("duplicate key value violates", "duplicate key value"));
    assert!(contains("error: duplicate key value", "duplicate key value"));
    assert!(contains("an error: no rows returned by a query", "no rows returned"));
    assert!(contains("abc", "abc"));
    assert!(contains("abc", "c"));
    assert!(contains("aab", "ab"));
    assert!(contains("ababac", "abac"));
}

#[test]
fn contains_rejects_what_is_not_there() {
    assert!(!contains("duplicate key", "duplicate key value"));
    assert!(!contains("", "a"));
    assert!(!contains("abc", "abcd"));
    assert!(!contains("abc", "ac"));
    assert!(!contains("Duplicate Key Value", "duplicate key value"));
}

#[test]
fn empty_pattern_is_everywhere() {
    assert!(contains("", ""));
    assert!(contains("abc", ""));
}

#[test]
fn contains_agrees_with_the_standard_library() {
    let texts = ["", "a", "ab", "aba", "abab", "baba", "\u{e9}a\u{e9}", "xyz"];
    let patterns = ["", "a", "b", "ab", "ba", "aba", "\u{e9}", "a\u{e9}", "z", "zz"];
    for text in texts {
        for pattern in patterns {
            assert_eq!(contains(text, pattern), text.contains(pattern), "{text:?} {pattern:?}");
        }
    }
}

#[test]
fn contains_chars_works_on_vectors() {
    assert!(contains_chars(&vec!['a', 'b', 'c'], &vec!['b', 'c']));
    assert!(!contains_chars(&vec!['a', 'b', 'c'], &vec!['c', 'b']));
    assert!(contains_chars(&vec![], &vec![]));
}

#[test]
fn decimal_string_of_small_numbers() {
    assert_eq!(decimal_string(0), "0");
    assert_eq!(decimal_string(7), "7");
    assert_eq!(decimal_string(9), "9");
    assert_eq!(decimal_string(10), "10");
    assert_eq!(decimal_string(101), "101");
}

#[test]
fn decimal_string_of_large_numbers() {
    assert_eq!(decimal_string(1_073_741_824), "1073741824");
    assert_eq!(decimal_string(4_294_967_295), "4294967295");
    assert_eq!(decimal_string(1_000_000_000), "1000000000");
}

#[test]
fn decimal_string_agrees_with_the_standard_library() {
    let mut n: u32 = 1;
    for _ in 0..32 {
        assert_eq!(decimal_string(n), n.to_string());
        assert_eq!(decimal_string(n - 1), (n - 1).to_string());
        n = n.wrapping_mul(2);
        if n == 0 {
            break;
        }
    }
}
