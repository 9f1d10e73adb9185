use dracula_tasks::text::{bool_to_text, join_texts, push_decimal, push_signed_decimal, remove_char, to_text};

fn decimal_text(n: u64) -> String {
    let mut s = String::new();
    push_decimal(&mut s, n);
    s
}

#[test]
fn decimal_numerals() {
    assert_eq!(decimal_text(0), "0");
    assert_eq!(decimal_text(7), "7");
    assert_eq!(decimal_text(1234), "1234");
    assert_eq!(decimal_text(u64::MAX), u64::MAX.to_string());
    let mut s = to_text("y=");
    push_signed_decimal(&mut s, -45);
    assert_eq!(s, "y=-45");
    let mut s = String::new();
    push_signed_decimal(&mut s, i32::MIN);
    assert_eq!(s, i32::MIN.to_string());
    let mut s = String::new();
    push_signed_decimal(&mut s, 2024);
    assert_eq!(s, "2024");
}

#[test]
fn booleans_render_as_words() {
    assert_eq!(bool_to_text(true), "true");
    assert_eq!(bool_to_text(false), "false");
}

#[test]
fn joins_separate_items() {
    let empty: Vec<String> = vec![];
    assert_eq!(join_texts(&empty, ", "), "");
    assert_eq!(join_texts(&vec!["a".to_string()], ", "), "a");
    assert_eq!(join_texts(&vec!["a".to_string(), "b".to_string(), "c".to_string()], ", "), "a, b, c");
}

#[test]
fn quotes_are_removed() {
    assert_eq!(remove_char("\"Boston\"", '"'), "Boston");
    assert_eq!(remove_char("no quotes", '"'), "no quotes");
    assert_eq!(remove_char("\"a\\\"b\"", '"'), "a\\b");
    assert_eq!(remove_char("é\"ü", '"'), "éü");
}
