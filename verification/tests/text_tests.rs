use wallet_relay::text::{
    chars_of, clone_texts, contains, find_prefixed_word, joined, render_list, split,
    split_trimmed, trim,
};

fn has(hay: &str, needle: &str) -> bool {
    contains(&chars_of(hay), &chars_of(needle))
}

#[test]
fn chars_round_trip() {
    let chars = chars_of("aé🔥z");
    assert_eq!(chars, vec!['a', 'é', '🔥', 'z']);
    assert!(chars_of("").is_empty());
}

#[test]
fn concat_joins() {
    assert_eq!(joined("ab", "cd"), "abcd");
    assert_eq!(joined("", ""), "");
}

#[test]
fn contains_finds_substrings() {
    assert!(has("hello world", "lo wo"));
    assert!(has("hello", "hello"));
    assert!(has("hello", ""));
    assert!(has("", ""));
    assert!(!has("", "a"));
    assert!(!has("hello", "hellos"));
    assert!(!has("hello", "world"));
    assert!(has("aaab", "aab"));
    assert!(has("abc", "c"));
    assert!(!has("abc", "ca"));
}

#[test]
fn trim_removes_white_space_at_both_ends() {
    assert_eq!(trim("  a b \n"), "a b");
    assert_eq!(trim("\u{3000}x\u{a0}"), "x");
    assert_eq!(trim("   "), "");
    assert_eq!(trim(""), "");
    assert_eq!(trim("abc"), "abc");
    assert_eq!(trim("\té🔥 z\r\n"), "é🔥 z");
}

#[test]
fn split_keeps_empty_pieces() {
    assert_eq!(split("a,b", ','), vec!["a", "b"]);
    assert_eq!(split("", ','), vec![""]);
    assert_eq!(split(",", ','), vec!["", ""]);
    assert_eq!(split("a,,b,", ','), vec!["a", "", "b", ""]);
    assert_eq!(split(" a , b ", ','), vec![" a ", " b "]);
}

#[test]
fn split_trimmed_trims_each_piece() {
    assert_eq!(split_trimmed(" a , b ,c", ','), vec!["a", "b", "c"]);
    assert_eq!(split_trimmed("", ','), vec![""]);
    assert_eq!(split_trimmed(" , ", ','), vec!["", ""]);
}

#[test]
fn prefixed_word_lookup() {
    let find = |s: &str| find_prefixed_word(&chars_of(s), '$');
    assert_eq!(find("buy $moon now").as_deref(), Some("$moon"));
    assert_eq!(find("$moon").as_deref(), Some("$moon"));
    assert_eq!(find("a$b $c $d").as_deref(), Some("$c"));
    assert_eq!(find("x\n$tab\tend").as_deref(), Some("$tab"));
    assert_eq!(find("$").as_deref(), Some("$"));
    assert_eq!(find("a$b"), None);
    assert_eq!(find(""), None);
    assert_eq!(find("   "), None);
    assert_eq!(find_prefixed_word(&chars_of("a b"), ' '), None);
}

#[test]
fn list_rendering() {
    assert_eq!(render_list(&Vec::new()), "[]");
    assert_eq!(render_list(&vec!["a".to_string()]), "[\"a\"]");
    assert_eq!(render_list(&vec!["a".to_string(), "".to_string(), "c".to_string()]), "[\"a\", \"\", \"c\"]");
    let names = vec!["x".to_string(), "y".to_string()];
    assert_eq!(clone_texts(&names), names);
}
