//! Tests for the byte-string helpers.

use retron::kernel::text::{bytes_eq, compose, contains, find_first_word, prefix_eq, str_eq, word_follows};

#[test]
fn byte_equality_compares_contents() {
    assert!(bytes_eq(b"abc", b"abc"));
    assert!(!bytes_eq(b"abc", b"abd"));
    assert!(!bytes_eq(b"abc", b"ab"));
    assert!(bytes_eq(b"", b""));
    assert!(str_eq("same", "same"));
    assert!(!str_eq("same", "other"));
}

#[test]
fn the_first_word_skips_leading_spaces() {
    assert_eq!(find_first_word(b"  help me"), (2, 6));
    assert_eq!(find_first_word(b"help"), (0, 4));
    assert_eq!(find_first_word(b"   "), (3, 3));
    assert_eq!(find_first_word(b""), (0, 0));
}

#[test]
fn word_follows_looks_past_spaces() {
    assert!(word_follows(b"cat file", 3));
    assert!(!word_follows(b"cat    ", 3));
    assert!(!word_follows(b"cat", 3));
}

#[test]
fn compose_joins_and_truncates() {
    assert_eq!(compose(b"ab", b"cd", 10), b"abcd");
    assert_eq!(compose(b"ab", b"cd", 3), b"abc");
    assert_eq!(compose(b"ab", b"cd", 1), b"a");
    assert_eq!(compose(b"", b"", 4), b"");
}

#[test]
fn contains_finds_runs() {
    assert!(contains(b"x86_64", b"x86"));
    assert!(contains(b"x86_64", b"x86_64"));
    assert!(contains(b"abcdef", b"cde"));
    assert!(!contains(b"abcdef", b"ce"));
    assert!(!contains(b"ab", b"abc"));
    assert!(contains(b"ab", b""));
}

#[test]
fn prefixes_compare_against_stored_names() {
    let stored = [b'h', b'i', 0, 0];
    assert!(prefix_eq(&stored, 2, b"hi"));
    assert!(!prefix_eq(&stored, 2, b"ho"));
    assert!(!prefix_eq(&stored, 1, b"hi"));
}
