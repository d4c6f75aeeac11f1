use codex_acp::warning_policy::user_visible;

#[test]
fn hides_internal_diagnostics_only() {
    assert!(!user_visible(
        "Falling back from WebSockets to HTTPS transport. disconnected"
    ));
    assert!(!user_visible(
        "Model metadata for `qwen3.8-max-preview` not found."
    ));
    assert!(user_visible("Approval interrupted"));
}

#[test]
fn hidden_prefix_must_start_the_message() {
    assert!(user_visible("Note: Falling back from WebSockets to HTTPS transport."));
    assert!(user_visible("Model metadata for"));
    assert!(!user_visible("Model metadata for `"));
    assert!(user_visible(""));
}
