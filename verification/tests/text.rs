use autotext::text::{clean_name, string_to_static_str};

#[test]
fn clean_name_removes_forbidden_characters() {
    assert_eq!(clean_name("Hello, World! 42").unwrap(), "Hello World 42");
    assert_eq!(clean_name("it's; DROP TABLE x").unwrap(), "its DROP TABLE x");
    assert_eq!(clean_name("a:b_c-d").unwrap(), "a:b_c-d");
    assert_eq!(clean_name("").unwrap(), "");
}

#[test]
fn clean_name_keeps_unicode_digits_and_spaces_and_drops_other_letters() {
    // `\d` and `\s` are Unicode classes; letters outside ASCII are removed.
    assert_eq!(clean_name("é٣\u{3000}x").unwrap(), "٣\u{3000}x");
}

#[test]
fn leaked_string_keeps_contents() {
    let s: &'static str = string_to_static_str("category 7".to_string());
    assert_eq!(s, "category 7");
}
