use codex_acp::collab_subagents::{
    apply_provider_subagent_identity, codex_agent_status, provider_subagent_updates,
    ProviderSubagentIdentity,
};
use codex_acp::events::{
    AgentPath, AgentStatus, CollabAgentRef, CollabAgentSpawnEndEvent, CollabAgentStatusEntry,
    CollabCloseEndEvent, CollabWaitingBeginEvent, CollabWaitingEndEvent, EventMsg,
    RawResponseItemEvent, ResponseItem, SubAgentActivityEvent, SubAgentActivityKind,
};
use codex_acp::json::{value_get, JsonNumber, JsonValue};

fn s(text: &str) -> JsonValue {
    JsonValue::String(text.to_string())
}

fn n(i: i64) -> JsonValue {
    JsonValue::Number(JsonNumber::Int(i))
}

fn field<'a>(v: &'a JsonValue, key: &str) -> &'a JsonValue {
    value_get(v, key).unwrap_or(&JsonValue::Null)
}

fn thread_id(value: &str) -> String {
    value.to_string()
}

fn agent_path(path: &str, name: &str) -> AgentPath {
    AgentPath { path: path.to_string(), name: name.to_string() }
}

/// An agent message whose single text item is `text`.
fn agent_message(author: &str, recipient: &str, text: &str) -> EventMsg {
    EventMsg::RawResponseItem(RawResponseItemEvent {
        item: ResponseItem::AgentMessage {
            id: None,
            author: author.to_string(),
            recipient: recipient.to_string(),
            plaintext_content: Some(text.to_string()),
        },
    })
}

#[test]
fn maps_spawn_end_to_provider_subagent() {
    let parent = thread_id("018f6c22-7b0a-7000-8000-000000000001");
    let child = thread_id("018f6c22-7b0a-7000-8000-000000000002");
    let event = EventMsg::CollabAgentSpawnEnd(CollabAgentSpawnEndEvent {
        call_id: "call-1".to_string(),
        completed_at_ms: 42,
        sender_thread_id: parent.clone(),
        new_thread_id: Some(child.clone()),
        new_agent_nickname: Some("worker".to_string()),
        new_agent_role: Some("auditor".to_string()),
        prompt: "inspect the leak".to_string(),
        model: "gpt-5.5".to_string(),
        reasoning_effort: "High".to_string(),
        status: AgentStatus::Running,
    });

    let updates = provider_subagent_updates(&event);

    assert_eq!(updates.len(), 1);
    assert_eq!(field(&updates[0], "provider"), &s("codex"));
    assert_eq!(field(&updates[0], "id"), &s(&child));
    assert_eq!(field(&updates[0], "parent_id"), &s(&parent));
    assert_eq!(field(&updates[0], "name"), &s("worker"));
    assert_eq!(field(&updates[0], "role"), &s("auditor"));
    assert_eq!(field(&updates[0], "status"), &s("running"));
    assert_eq!(field(&updates[0], "summary"), &s("Spawned"));
    assert_eq!(field(&updates[0], "prompt"), &s("inspect the leak"));
    assert_eq!(field(&updates[0], "model"), &s("gpt-5.5"));
    assert_eq!(field(&updates[0], "completed_at_ms"), &n(42));
}

#[test]
fn maps_waiting_begin_receiver_agents() {
    let parent = thread_id("018f6c22-7b0a-7000-8000-000000000003");
    let child = thread_id("018f6c22-7b0a-7000-8000-000000000004");
    let event = EventMsg::CollabWaitingBegin(CollabWaitingBeginEvent {
        started_at_ms: 7,
        sender_thread_id: parent.clone(),
        receiver_thread_ids: Vec::new(),
        receiver_agents: vec![CollabAgentRef {
            thread_id: child.clone(),
            agent_nickname: Some("solver".to_string()),
            agent_role: Some("implementation".to_string()),
        }],
        call_id: "wait-1".to_string(),
    });

    let updates = provider_subagent_updates(&event);

    assert_eq!(updates.len(), 1);
    assert_eq!(field(&updates[0], "id"), &s(&child));
    assert_eq!(field(&updates[0], "parent_id"), &s(&parent));
    assert_eq!(field(&updates[0], "name"), &s("solver"));
    assert_eq!(field(&updates[0], "role"), &s("implementation"));
    assert_eq!(field(&updates[0], "status"), &s("running"));
    assert_eq!(field(&updates[0], "summary"), &s("Waiting"));
    assert_eq!(field(&updates[0], "started_at_ms"), &n(7));
}

#[test]
fn maps_v2_activity_using_agent_path_as_stable_id() {
    let child = thread_id("018f6c22-7b0a-7000-8000-000000000005");
    let event = EventMsg::SubAgentActivity(SubAgentActivityEvent {
        event_id: "activity-1".to_string(),
        occurred_at_ms: 11,
        agent_thread_id: child.clone(),
        agent_path: agent_path("/root/auditor", "auditor"),
        kind: SubAgentActivityKind::Started,
    });

    let updates = provider_subagent_updates(&event);

    assert_eq!(updates.len(), 1);
    assert_eq!(field(&updates[0], "id"), &s("/root/auditor"));
    assert_eq!(field(&updates[0], "thread_id"), &s(&child));
    assert_eq!(field(&updates[0], "name"), &s("auditor"));
    assert_eq!(field(&updates[0], "task"), &s("auditor"));
    assert_eq!(field(&updates[0], "status"), &s("running"));
    assert_eq!(field(&updates[0], "summary"), &s("Spawned"));
    assert_eq!(field(&updates[0], "started_at_ms"), &n(11));
}

#[test]
fn applies_resolved_v2_identity_without_losing_task() {
    let mut update = JsonValue::Object(vec![
        ("name".to_string(), s("auditor")),
        ("task".to_string(), s("auditor")),
    ]);

    apply_provider_subagent_identity(
        &mut update,
        &ProviderSubagentIdentity {
            name: Some("Newton".to_string()),
            role: Some("auditor".to_string()),
        },
    );

    assert_eq!(field(&update, "name"), &s("Newton"));
    assert_eq!(field(&update, "role"), &s("auditor"));
    assert_eq!(field(&update, "task"), &s("auditor"));
}

#[test]
fn maps_v2_interruption_to_cancelled_completion() {
    let event = EventMsg::SubAgentActivity(SubAgentActivityEvent {
        event_id: "activity-2".to_string(),
        occurred_at_ms: 19,
        agent_thread_id: thread_id("018f6c22-7b0a-7000-8000-000000000006"),
        agent_path: agent_path("/root/auditor", "auditor"),
        kind: SubAgentActivityKind::Interrupted,
    });

    let updates = provider_subagent_updates(&event);

    assert_eq!(field(&updates[0], "status"), &s("cancelled"));
    assert_eq!(field(&updates[0], "summary"), &s("Interrupted"));
    assert_eq!(field(&updates[0], "completed_at_ms"), &n(19));
    assert!(value_get(&updates[0], "started_at_ms").is_none());
}

#[test]
fn maps_v2_final_answer_to_completion_for_same_path() {
    let updates = provider_subagent_updates(&agent_message(
        "/root/auditor",
        "/root",
        "Message Type: FINAL_ANSWER\nTask name: /root\nSender: /root/auditor\nPayload:\nAudit complete",
    ));

    assert_eq!(updates.len(), 1);
    assert_eq!(field(&updates[0], "id"), &s("/root/auditor"));
    assert_eq!(field(&updates[0], "name"), &s("auditor"));
    assert_eq!(field(&updates[0], "status"), &s("completed"));
    assert_eq!(field(&updates[0], "summary"), &s("Completed"));
}

#[test]
fn maps_nested_v2_final_answer_to_its_direct_parent() {
    let updates = provider_subagent_updates(&agent_message(
        "/root/auditor/reader",
        "/root/auditor",
        "Message Type: FINAL_ANSWER\nTask name: /root/auditor\nSender: /root/auditor/reader\nPayload:\nRead complete",
    ));

    assert_eq!(field(&updates[0], "id"), &s("/root/auditor/reader"));
    assert_eq!(field(&updates[0], "name"), &s("reader"));
    assert_eq!(field(&updates[0], "status"), &s("completed"));
}

#[test]
fn ignores_v2_nonterminal_message_to_parent() {
    let updates = provider_subagent_updates(&agent_message(
        "/root/auditor",
        "/root",
        "Message Type: MESSAGE\nTask name: /root\nSender: /root/auditor\nPayload:\nStill working",
    ));

    assert!(updates.is_empty());
}

#[test]
fn ignores_v2_final_answer_not_sent_to_direct_parent() {
    let updates = provider_subagent_updates(&agent_message(
        "/root/auditor",
        "/root/implementer",
        "Message Type: FINAL_ANSWER\nTask name: /root/implementer\nSender: /root/auditor\nPayload:\nPeer update",
    ));

    assert!(updates.is_empty());
}

#[test]
fn ignores_completion_without_name_or_text() {
    let trailing_slash = provider_subagent_updates(&agent_message(
        "/root/",
        "/root",
        "Message Type: FINAL_ANSWER\n",
    ));
    assert!(trailing_slash.is_empty());
    let no_slash = provider_subagent_updates(&agent_message("root", "", "Message Type: FINAL_ANSWER\n"));
    assert!(no_slash.is_empty());
    let no_text = provider_subagent_updates(&EventMsg::RawResponseItem(RawResponseItemEvent {
        item: ResponseItem::AgentMessage {
            id: None,
            author: "/root/a".to_string(),
            recipient: "/root".to_string(),
            plaintext_content: None,
        },
    }));
    assert!(no_text.is_empty());
    assert!(provider_subagent_updates(&EventMsg::Other).is_empty());
}

#[test]
fn spawn_end_without_new_thread_reports_nothing() {
    let event = EventMsg::CollabAgentSpawnEnd(CollabAgentSpawnEndEvent {
        call_id: "call-2".to_string(),
        completed_at_ms: 1,
        sender_thread_id: "p".to_string(),
        new_thread_id: None,
        new_agent_nickname: None,
        new_agent_role: None,
        prompt: String::new(),
        model: String::new(),
        reasoning_effort: "Low".to_string(),
        status: AgentStatus::Errored("boom".to_string()),
    });
    assert!(provider_subagent_updates(&event).is_empty());
}

#[test]
fn waiting_end_falls_back_to_plain_statuses() {
    let event = EventMsg::CollabWaitingEnd(CollabWaitingEndEvent {
        call_id: "wait-2".to_string(),
        completed_at_ms: 9,
        sender_thread_id: "p".to_string(),
        statuses: vec![
            ("a".to_string(), AgentStatus::Completed(None)),
            ("b".to_string(), AgentStatus::NotFound),
        ],
        agent_statuses: Vec::new(),
    });
    let updates = provider_subagent_updates(&event);
    assert_eq!(updates.len(), 2);
    assert_eq!(field(&updates[0], "id"), &s("a"));
    assert_eq!(field(&updates[0], "status"), &s("completed"));
    assert_eq!(field(&updates[1], "thread_id"), &s("b"));
    assert_eq!(field(&updates[1], "status"), &s("not_found"));
    assert_eq!(field(&updates[1], "summary"), &s("Wait finished"));
    assert!(value_get(&updates[1], "name").is_none());

    let with_agents = EventMsg::CollabWaitingEnd(CollabWaitingEndEvent {
        call_id: "wait-3".to_string(),
        completed_at_ms: 9,
        sender_thread_id: "p".to_string(),
        statuses: vec![("ignored".to_string(), AgentStatus::Running)],
        agent_statuses: vec![CollabAgentStatusEntry {
            thread_id: "c".to_string(),
            agent_nickname: None,
            agent_role: Some("r".to_string()),
            status: AgentStatus::Shutdown,
        }],
    });
    let updates = provider_subagent_updates(&with_agents);
    assert_eq!(updates.len(), 1);
    assert_eq!(field(&updates[0], "id"), &s("c"));
    assert_eq!(value_get(&updates[0], "name"), Some(&JsonValue::Null));
    assert_eq!(field(&updates[0], "status"), &s("closed"));
}

#[test]
fn waiting_begin_without_agents_uses_thread_ids() {
    let event = EventMsg::CollabWaitingBegin(CollabWaitingBeginEvent {
        started_at_ms: 5,
        sender_thread_id: "p".to_string(),
        receiver_thread_ids: vec!["x".to_string(), "y".to_string()],
        receiver_agents: Vec::new(),
        call_id: "w".to_string(),
    });
    let updates = provider_subagent_updates(&event);
    assert_eq!(updates.len(), 2);
    assert_eq!(field(&updates[1], "id"), &s("y"));
    assert_eq!(field(&updates[1], "started_at_ms"), &n(5));
    assert!(value_get(&updates[1], "role").is_none());
}

#[test]
fn close_end_reports_closed() {
    let event = EventMsg::CollabCloseEnd(CollabCloseEndEvent {
        call_id: "c".to_string(),
        completed_at_ms: 3,
        sender_thread_id: "p".to_string(),
        receiver_thread_id: "k".to_string(),
        receiver_agent_nickname: Some("nick".to_string()),
        receiver_agent_role: None,
        status: AgentStatus::Running,
    });
    let updates = provider_subagent_updates(&event);
    assert_eq!(field(&updates[0], "status"), &s("closed"));
    assert_eq!(field(&updates[0], "summary"), &s("Closed"));
    assert_eq!(field(&updates[0], "name"), &s("nick"));
}

#[test]
fn labels_every_agent_status() {
    assert_eq!(codex_agent_status(&AgentStatus::PendingInit), "starting");
    assert_eq!(codex_agent_status(&AgentStatus::Running), "running");
    assert_eq!(codex_agent_status(&AgentStatus::Interrupted), "interrupted");
    assert_eq!(codex_agent_status(&AgentStatus::Completed(Some("x".to_string()))), "completed");
    assert_eq!(codex_agent_status(&AgentStatus::Errored("e".to_string())), "failed");
    assert_eq!(codex_agent_status(&AgentStatus::Shutdown), "closed");
    assert_eq!(codex_agent_status(&AgentStatus::NotFound), "not_found");
}

#[test]
fn identity_turns_null_into_object_and_keeps_others() {
    let mut update = JsonValue::Null;
    apply_provider_subagent_identity(
        &mut update,
        &ProviderSubagentIdentity { name: None, role: Some("r".to_string()) },
    );
    assert_eq!(update, JsonValue::Object(vec![("role".to_string(), s("r"))]));

    let mut untouched = JsonValue::Bool(true);
    apply_provider_subagent_identity(&mut untouched, &ProviderSubagentIdentity::default());
    assert_eq!(untouched, JsonValue::Bool(true));
}
