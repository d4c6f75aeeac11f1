use codex_acp::json::{object_get, set_value_field, value_get, JsonValue};
use codex_acp::text::{after_last, contains_char, rsplit_once, same_text, starts_with, trim, trim_end};

#[test]
fn trims_unicode_white_space() {
    assert_eq!(trim("\u{3000} a b\u{2003}\n"), "a b");
    assert_eq!(trim(" \t "), "");
    assert_eq!(trim_end("  x \u{85}"), "  x");
    assert_eq!(trim("é"), "é");
}

#[test]
fn splits_at_the_last_separator() {
    assert_eq!(rsplit_once("/root/a/b", '/'), Some(("/root/a", "b")));
    assert_eq!(rsplit_once("plain", '/'), None);
    assert_eq!(after_last("/root/a/b", '/'), "b");
    assert_eq!(after_last("plain", '/'), "plain");
    assert!(starts_with("héllo", "hé"));
    assert!(!starts_with("h", "hé"));
    assert!(contains_char("a\nb", '\n'));
    assert!(same_text("ab", "ab") && !same_text("ab", "a"));
}

#[test]
fn writes_and_reads_back_object_fields() {
    let mut v = JsonValue::Object(vec![
        ("k".to_string(), JsonValue::Bool(false)),
        ("other".to_string(), JsonValue::Null),
    ]);
    set_value_field(&mut v, "k", JsonValue::Bool(true));
    set_value_field(&mut v, "new", JsonValue::Null);
    assert_eq!(value_get(&v, "k"), Some(&JsonValue::Bool(true)));
    assert_eq!(value_get(&v, "other"), Some(&JsonValue::Null));
    if let JsonValue::Object(entries) = &v {
        assert_eq!(entries.len(), 3);
        assert_eq!(object_get(entries, "new"), Some(&JsonValue::Null));
        assert_eq!(object_get(entries, "missing"), None);
    }
    assert_eq!(value_get(&JsonValue::Bool(true), "k"), None);
}
