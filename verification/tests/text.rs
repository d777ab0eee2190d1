use trackhound::json::{contains_error_code, JsonItem, JsonValue};
use trackhound::text::{contains_str, same_text, string_from_chars};

#[test]
fn substring_search() {
    assert!(contains_str("abc", ""));
    assert!(contains_str("abc", "abc"));
    assert!(contains_str("xxabcxx", "bc"));
    assert!(!contains_str("ab", "abc"));
    assert!(!contains_str("", "a"));
    assert!(contains_str("zur zustellung", "zustellung"));
    assert!(same_text("a", "a"));
    assert!(!same_text("a", "A"));
    assert_eq!(string_from_chars(&vec!['h', 'é']), "hé");
}

#[test]
fn error_codes_are_found_at_any_depth() {
    let nested = JsonValue::Array(vec![JsonItem {
        value: JsonValue::Object(vec![("c".into(), JsonValue::Number(Some(-5)))]),
        text: String::new(),
    }]);
    assert!(contains_error_code(&nested, -5));
    assert!(!contains_error_code(&nested, 5));
    assert!(!contains_error_code(&JsonValue::Str("-5".into()), -5));
    assert!(!contains_error_code(&JsonValue::Number(None), -5));
}
