use conduit::article_editor::Field;
use conduit::form::{Form, FormField};
use conduit::text::{decimal_text, join_strs};

fn trimmed_description(text: &str) -> String {
    let mut form = Form::default();
    form.upsert_field(Field::Description(text.to_string()));
    form.upsert_field(Field::Title("t".into()));
    form.upsert_field(Field::Body("b".into()));
    let valid = form.trim_fields().validate().ok().unwrap();
    valid.iter_keys_and_fields()[1].1.value().to_string()
}

#[test]
fn trim_removes_unicode_whitespace() {
    assert_eq!(trimmed_description("  x "), "x");
    assert_eq!(trimmed_description("\u{2003}a b\u{85}"), "a b");
    assert_eq!(trimmed_description(" \t "), "");
    assert_eq!(trimmed_description("x"), "x");
}

#[test]
fn decimal_texts() {
    assert_eq!(decimal_text(0), "0");
    assert_eq!(decimal_text(7), "7");
    assert_eq!(decimal_text(10), "10");
    assert_eq!(decimal_text(1234567890), "1234567890");
}

#[test]
fn joins() {
    assert_eq!(join_strs(&vec![], "/"), "");
    assert_eq!(join_strs(&vec!["a"], "/"), "a");
    assert_eq!(join_strs(&vec!["a", "b", "c"], "&"), "a&b&c");
}

