use api::text::{
    after_last, chars_of, join2, join3, decimal_string, same_text, skip_chars, starts_with,
};

#[test]
fn chars_of_keeps_every_character() {
    assert_eq!(chars_of("a,é"), vec!['a', ',', 'é']);
    assert!(chars_of("").is_empty());
}

#[test]
fn same_text_compares_characters() {
    assert!(same_text("abc", "abc"));
    assert!(!same_text("abc", "abd"));
    assert!(!same_text("abc", "ab"));
}

#[test]
fn concat_joins_in_order() {
    assert_eq!(join2("ab", "cd"), "abcd");
    assert_eq!(join3("a", "b", "c"), "abc");
    assert_eq!(join2("", ""), "");
}

#[test]
fn starts_with_tests_the_prefix() {
    assert!(starts_with("message.2023", "message."));
    assert!(starts_with("message.", "message."));
    assert!(!starts_with("message", "message."));
    assert!(!starts_with("room", "message."));
    assert!(starts_with("anything", ""));
}

#[test]
fn skip_chars_counts_characters() {
    assert_eq!(skip_chars("message.é1", 8), "é1");
    assert_eq!(skip_chars("abc", 3), "");
    assert_eq!(skip_chars("éa", 1), "a");
}

#[test]
fn after_last_takes_the_tail() {
    assert_eq!(after_last("http://h/users/42", '/'), Some("42".to_string()));
    assert_eq!(after_last("a/b/", '/'), Some(String::new()));
    assert_eq!(after_last("/x", '/'), Some("x".to_string()));
    assert_eq!(after_last("42", '/'), None);
    assert_eq!(after_last("", '/'), None);
}

#[test]
fn decimal_string_writes_base_ten() {
    assert_eq!(decimal_string(0), "0");
    assert_eq!(decimal_string(7), "7");
    assert_eq!(decimal_string(10), "10");
    assert_eq!(decimal_string(1234567890), "1234567890");
    assert_eq!(decimal_string(u64::MAX as u128), u64::MAX.to_string());
    assert_eq!(decimal_string(u128::MAX), u128::MAX.to_string());
}
