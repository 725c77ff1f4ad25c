use assistant_cli::text::{
    contains, find_keyword, join, number_text, replace, same_text, skip_chars, split, split_at_byte,
    starts_with, starts_with_keyword, take_chars, take_line, trim,
};

fn strings(list: &[&str]) -> Vec<String> {
    list.iter().map(|s| s.to_string()).collect()
}

#[test]
fn texts_are_trimmed() {
    assert_eq!(trim("  a b \n"), "a b");
    assert_eq!(trim("\u{2029}x\u{1680}"), "x");
    assert_eq!(trim(" \t "), "");
    assert_eq!(trim(""), "");
}

#[test]
fn texts_are_split_and_joined() {
    assert_eq!(split("a,b,,c", ','), strings(&["a", "b", "", "c"]));
    assert_eq!(split("", ','), strings(&[""]));
    assert_eq!(split(",", ','), strings(&["", ""]));
    assert_eq!(join(&strings(&["a", "b", "c"]), 3, ", "), "a, b, c");
    assert_eq!(join(&strings(&["a", "b", "c"]), 2, ", "), "a, b");
    assert_eq!(join(&strings(&["a"]), 0, ", "), "");
}

#[test]
fn keywords_are_found_in_any_case() {
    assert_eq!(find_keyword("é Order", " order"), Some(1));
    assert_eq!(find_keyword("abCabc", "c"), Some(2));
    assert_eq!(find_keyword("abc", "d"), None);
    assert_eq!(find_keyword("a", "ab"), None);
    assert!(starts_with_keyword("SHOW x", "show "));
    assert!(!starts_with_keyword("x show ", "show "));
    assert_eq!(skip_chars("éab", 1), "ab");
    assert_eq!(skip_chars("é", 1), "");
    assert_eq!(split_at_byte("éa", 2), ("é", "a"));
}

#[test]
fn patterns_are_contained() {
    assert!(contains("shopping", "pp"));
    assert!(contains("shopping", ""));
    assert!(!contains("shop", "shopping"));
    assert!(!contains("shop", "x"));
    assert!(starts_with("list-created", "list-"));
    assert!(!starts_with("a list-", "list-"));
    assert!(same_text("é", "é"));
    assert!(!same_text("a", "b"));
    assert!(!same_text("a", "ab"));
}

#[test]
fn patterns_are_replaced() {
    assert_eq!(replace("aXbX", "X", "--"), "a--b--");
    assert_eq!(replace("aaa", "aa", "b"), "ba");
    assert_eq!(replace("abc", "x", "y"), "abc");
}

#[test]
fn texts_are_shortened() {
    assert_eq!(take_chars("日本語", 2), "日本");
    assert_eq!(take_chars("日本語", 5), "日本語");
    assert_eq!(take_chars("abc", 0), "");
    assert_eq!(take_line("a\nb"), "a");
    assert_eq!(take_line("a\r\nb"), "a");
    assert_eq!(take_line("a\r"), "a\r");
    assert_eq!(take_line(""), "");
}

#[test]
fn numbers_are_written() {
    assert_eq!(number_text(0), "0");
    assert_eq!(number_text(7), "7");
    assert_eq!(number_text(10), "10");
    assert_eq!(number_text(90210), "90210");
    assert_eq!(number_text(usize::MAX), format!("{}", usize::MAX));
}
