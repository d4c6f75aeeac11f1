use codex_acp::codex_extensions;
use codex_acp::events::{ThreadGoal, ThreadGoalStatus, ThreadGoalUpdatedEvent};
use codex_acp::goal::AdditionalContextKind;
use codex_acp::jaz_extensions;
use codex_acp::json::{value_get, JsonNumber, JsonValue};

fn s(text: &str) -> JsonValue {
    JsonValue::String(text.to_string())
}

fn obj(entries: Vec<(&str, JsonValue)>) -> JsonValue {
    JsonValue::Object(entries.into_iter().map(|(k, v)| (k.to_string(), v)).collect())
}

fn meta(entries: Vec<(&str, JsonValue)>) -> Vec<(String, JsonValue)> {
    entries.into_iter().map(|(k, v)| (k.to_string(), v)).collect()
}

fn event(status: ThreadGoalStatus, objective: &str) -> ThreadGoalUpdatedEvent {
    ThreadGoalUpdatedEvent {
        thread_id: "thread-1".to_string(),
        goal: ThreadGoal {
            thread_id: "thread-1".to_string(),
            objective: objective.to_string(),
            status,
            token_budget: None,
            tokens_used: 12,
            time_used_seconds: 3,
            created_at: 100,
            updated_at: 200,
        },
    }
}

#[test]
fn reads_codex_goal_request_meta() {
    let meta = meta(vec![(
        "codex",
        obj(vec![(
            "goal",
            obj(vec![
                ("requested", JsonValue::Bool(true)),
                ("objective", s("  Finish the goal  ")),
            ]),
        )]),
    )]);

    assert!(codex_extensions::goal_requested(Some(&meta)));
}

#[test]
fn ignores_jaz_goal_request_meta() {
    let meta = meta(vec![(
        "jaz",
        obj(vec![
            ("goalRequested", JsonValue::Bool(true)),
            ("goalObjective", s("Finish the goal")),
        ]),
    )]);

    assert!(!codex_extensions::goal_requested(Some(&meta)));
}

#[test]
fn jaz_dialect_reads_its_own_goal_request() {
    let jaz_meta = meta(vec![("jaz", obj(vec![("goalRequested", JsonValue::Bool(true))]))]);
    assert!(jaz_extensions::goal_requested(Some(&jaz_meta)));
    let codex_meta = meta(vec![(
        "codex",
        obj(vec![("goal", obj(vec![("requested", JsonValue::Bool(true))]))]),
    )]);
    assert!(!jaz_extensions::goal_requested(Some(&codex_meta)));
    assert!(!jaz_extensions::goal_requested(None));
    let not_bool = meta(vec![("jaz", obj(vec![("goalRequested", s("true"))]))]);
    assert!(!jaz_extensions::goal_requested(Some(&not_bool)));
}

#[test]
fn goal_request_needs_a_true_boolean() {
    let no = meta(vec![(
        "codex",
        obj(vec![("goal", obj(vec![("requested", JsonValue::Bool(false))]))]),
    )]);
    assert!(!codex_extensions::goal_requested(Some(&no)));
    let not_object = meta(vec![("codex", obj(vec![("goal", JsonValue::Bool(true))]))]);
    assert!(!codex_extensions::goal_requested(Some(&not_object)));
    assert!(!codex_extensions::goal_requested(None));
}

#[test]
fn user_input_carries_goal_context_only_when_requested() {
    let op = codex_extensions::user_input_op(vec![1, 2], true);
    assert_eq!(op.items, vec![1, 2]);
    assert_eq!(op.additional_context.len(), 1);
    assert_eq!(op.additional_context[0].0, "codex.goal_request");
    assert_eq!(op.additional_context[0].1.value, codex_extensions::GOAL_REQUEST_CONTEXT);
    assert!(matches!(op.additional_context[0].1.kind, AdditionalContextKind::Application));

    let plain = jaz_extensions::user_input_op(vec!["x"], false);
    assert!(plain.additional_context.is_empty());
    let jaz = jaz_extensions::user_input_op(Vec::<u8>::new(), true);
    assert_eq!(jaz.additional_context[0].0, "jaz.goal_request");

    let (key, entry) = codex_extensions::goal_request_context();
    assert_eq!(key, "codex.goal_request");
    assert!(entry.value.starts_with("Goal mode was explicitly requested"));
}

#[test]
fn notifications_carry_session_and_method() {
    let n = codex_extensions::context_compacted_notification("session-9");
    assert_eq!(n.method, "codex/context_compacted");
    assert_eq!(
        n.params,
        obj(vec![
            ("sessionId", s("session-9")),
            ("source", s("codex")),
            ("status", s("completed")),
            ("trigger", s("manual")),
        ])
    );
    let j = jaz_extensions::context_compacted_notification("session-9");
    assert_eq!(j.method, "_jaz/context_compacted");

    let cleared = codex_extensions::thread_goal_clear_notification("session-9");
    assert_eq!(cleared.method, "thread/goal/cleared");
    assert_eq!(cleared.params, obj(vec![("sessionId", s("session-9"))]));

    let e = event(ThreadGoalStatus::Paused, "ship it");
    let update = jaz_extensions::thread_goal_update_notification("session-9", &e, s("paused"));
    assert_eq!(update.method, "_jaz/session_goal_update");
    let goal = value_get(&update.params, "goal").unwrap();
    assert_eq!(value_get(goal, "threadId"), Some(&s("thread-1")));
    assert_eq!(value_get(goal, "status"), Some(&s("paused")));
    assert_eq!(value_get(goal, "tokenBudget"), Some(&JsonValue::Null));
    assert_eq!(value_get(goal, "tokensUsed"), Some(&JsonValue::Number(JsonNumber::Int(12))));
    assert_eq!(value_get(goal, "updatedAt"), Some(&JsonValue::Number(JsonNumber::Int(200))));
    assert_eq!(value_get(&update.params, "sessionId"), Some(&s("session-9")));
    let codex_update = codex_extensions::thread_goal_update_notification("s", &e, s("paused"));
    assert_eq!(codex_update.method, "thread/goal/updated");
}

#[test]
fn formats_goal_updates_except_active() {
    assert_eq!(
        codex_extensions::format_thread_goal_update(&event(ThreadGoalStatus::Active, "x")),
        None
    );
    assert_eq!(
        codex_extensions::format_thread_goal_update(&event(ThreadGoalStatus::BudgetLimited, "  ship it \n")),
        Some("Goal updated (budget limited): ship it".to_string())
    );
    assert_eq!(
        jaz_extensions::format_thread_goal_update(&event(ThreadGoalStatus::Complete, "line one\nline two ")),
        Some("Goal updated (complete):\nline one\nline two".to_string())
    );
    assert_eq!(
        jaz_extensions::format_thread_goal_update(&event(ThreadGoalStatus::UsageLimited, "")),
        Some("Goal updated (usage limited): ".to_string())
    );
}
