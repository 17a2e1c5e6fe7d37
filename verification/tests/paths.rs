use consul_diff::path::{decimal_text, join_element, join_entry};

#[test]
fn decimal_text_writes_plain_numerals() {
    assert_eq!(decimal_text(0), "0");
    assert_eq!(decimal_text(7), "7");
    assert_eq!(decimal_text(10), "10");
    assert_eq!(decimal_text(109), "109");
    assert_eq!(decimal_text(1234567890), "1234567890");
    assert_eq!(decimal_text(usize::MAX), usize::MAX.to_string());
}

#[test]
fn join_entry_uses_a_slash_only_after_a_prefix() {
    assert_eq!(join_entry("", "a"), "a");
    assert_eq!(join_entry("a", "b"), "a/b");
    assert_eq!(join_entry("a/b[0]", "c"), "a/b[0]/c");
    assert_eq!(join_entry("a", ""), "a/");
    assert_eq!(join_entry("", ""), "");
}

#[test]
fn join_element_puts_the_bracket_right_after_the_prefix() {
    assert_eq!(join_element("a/b", 0), "a/b[0]");
    assert_eq!(join_element("", 3), "[3]");
    assert_eq!(join_element("a[1]", 20), "a[1][20]");
}

#[test]
fn joined_keys_keep_characters_beyond_ascii() {
    assert_eq!(join_entry("clé", "值"), "clé/值");
    assert_eq!(join_element("ключ", 2), "ключ[2]");
}
