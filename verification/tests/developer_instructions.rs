use codex_acp::developer_instructions::{
    append_developer_instructions, apply_session_meta_developer_instructions,
    collect_system_prompt_append, collect_text_value, developer_instructions_from_session_meta,
    push_trimmed,
};
use codex_acp::json::JsonValue;

fn s(text: &str) -> JsonValue {
    JsonValue::String(text.to_string())
}

fn obj(entries: Vec<(&str, JsonValue)>) -> JsonValue {
    JsonValue::Object(entries.into_iter().map(|(k, v)| (k.to_string(), v)).collect())
}

fn meta(entries: Vec<(&str, JsonValue)>) -> Vec<(String, JsonValue)> {
    entries.into_iter().map(|(k, v)| (k.to_string(), v)).collect()
}

#[test]
fn appends_to_existing_developer_instructions() {
    assert_eq!(
        append_developer_instructions(Some("base".to_string()), "extra"),
        Some("base\n\nextra".to_string())
    );
}

#[test]
fn ignores_empty_additional_developer_instructions() {
    assert_eq!(
        append_developer_instructions(Some("base".to_string()), "  "),
        Some("base".to_string())
    );
}

#[test]
fn extracts_codex_namespaced_append_developer_instructions() {
    let meta = meta(vec![(
        "codex",
        obj(vec![("appendDeveloperInstructions", s("memory context"))]),
    )]);

    assert_eq!(
        developer_instructions_from_session_meta(Some(&meta)),
        Some("memory context".to_string())
    );
}

#[test]
fn extracts_system_prompt_append_object() {
    let meta = meta(vec![(
        "systemPrompt",
        obj(vec![("append", s("prompt-style append"))]),
    )]);

    assert_eq!(
        developer_instructions_from_session_meta(Some(&meta)),
        Some("prompt-style append".to_string())
    );
}

#[test]
fn treats_system_prompt_string_as_append_for_codex() {
    let meta = meta(vec![("systemPrompt", s("compat append"))]);

    assert_eq!(
        developer_instructions_from_session_meta(Some(&meta)),
        Some("compat append".to_string())
    );
}

#[test]
fn append_trims_both_sides_and_replaces_blank_existing() {
    assert_eq!(
        append_developer_instructions(Some("base  \n".to_string()), "\t extra \n"),
        Some("base\n\nextra".to_string())
    );
    assert_eq!(
        append_developer_instructions(Some("   ".to_string()), " extra "),
        Some("extra".to_string())
    );
    assert_eq!(append_developer_instructions(None, " extra "), Some("extra".to_string()));
    assert_eq!(append_developer_instructions(None, "\u{3000}\n"), None);
    assert_eq!(
        append_developer_instructions(Some("  lead kept".to_string()), "x"),
        Some("  lead kept\n\nx".to_string())
    );
}

#[test]
fn joins_all_parts_in_reading_order() {
    let meta = meta(vec![
        (
            "codex",
            obj(vec![
                ("developerInstructions", s(" fourth ")),
                ("appendDeveloperInstructions", JsonValue::Array(vec![s("third"), JsonValue::Null, s("  ")])),
            ]),
        ),
        ("appendDeveloperInstructions", s("second")),
        (
            "systemPrompt",
            obj(vec![
                ("appendDeveloperInstructions", s("first-b")),
                ("append", s("first-a")),
            ]),
        ),
    ]);
    assert_eq!(
        developer_instructions_from_session_meta(Some(&meta)),
        Some("first-a\n\nfirst-b\n\nsecond\n\nthird\n\nfourth".to_string())
    );
}

#[test]
fn metadata_without_text_gives_nothing() {
    assert_eq!(developer_instructions_from_session_meta(None), None);
    let meta = meta(vec![
        ("systemPrompt", JsonValue::Bool(true)),
        ("appendDeveloperInstructions", JsonValue::Array(vec![JsonValue::Null])),
        ("codex", s("not an object")),
    ]);
    assert_eq!(developer_instructions_from_session_meta(Some(&meta)), None);
}

#[test]
fn applies_metadata_to_configured_instructions() {
    let mut configured = Some("base".to_string());
    let meta = meta(vec![("appendDeveloperInstructions", s("extra"))]);
    apply_session_meta_developer_instructions(&mut configured, Some(&meta));
    assert_eq!(configured, Some("base\n\nextra".to_string()));

    let mut untouched = Some("base  ".to_string());
    apply_session_meta_developer_instructions(&mut untouched, None);
    assert_eq!(untouched, Some("base  ".to_string()));
}

#[test]
fn collectors_push_trimmed_text_only() {
    let mut parts = Vec::new();
    push_trimmed("  a  ", &mut parts);
    push_trimmed("   ", &mut parts);
    collect_text_value(Some(&JsonValue::Array(vec![s(" b"), JsonValue::Bool(false), s("c ")])), &mut parts);
    collect_text_value(Some(&JsonValue::Bool(true)), &mut parts);
    collect_text_value(None, &mut parts);
    collect_system_prompt_append(Some(&s(" d ")), &mut parts);
    collect_system_prompt_append(Some(&JsonValue::Array(vec![s("ignored")])), &mut parts);
    assert_eq!(parts, vec!["a", "b", "c", "d"]);
}
