//! Goal requests and notifications in the `codex` metadata dialect.

use vstd::prelude::*;
use crate::events::ThreadGoalUpdatedEvent;
use crate::goal::{
    compacted_params, compacted_params_value, ext_notification, format_goal_update,
    goal_payload, goal_payload_value, goal_update_message, goal_update_params,
    goal_update_params_value, user_input_with_goal, AdditionalContextEntry, AdditionalContextKind,
    ExtNotification, UserInputOp,
};
use crate::json::{
    entries_model, field_of, lemma_lookup_empty, lemma_lookup_push, lookup, object_get, push_field,
    str_value, object, Json, JsonValue,
};
use crate::developer_instructions::meta_model;

verus! {

pub const CONTEXT_COMPACTED_METHOD: &'static str = "codex/context_compacted";

pub const GOAL_UPDATE_METHOD: &'static str = "thread/goal/updated";

pub const GOAL_CLEAR_METHOD: &'static str = "thread/goal/cleared";

pub const CODEX_META_KEY: &'static str = "codex";

pub const GOAL_META_KEY: &'static str = "goal";

pub const GOAL_REQUESTED_META_KEY: &'static str = "requested";

pub const GOAL_REQUEST_CONTEXT_KEY: &'static str = "codex.goal_request";

pub const GOAL_REQUEST_CONTEXT: &'static str = "Goal mode was explicitly requested for this prompt. If no goal is active, call create_goal with a concise objective derived from the user's request before continuing. Continue according to native Codex goal rules until the goal is complete, blocked, budget-limited, usage-limited, or requires user input.";

/// Metadata requests goal mode when `codex.goal.requested` is `true`.
pub open spec fn goal_requested_spec(meta: Option<Seq<(Seq<char>, Json)>>) -> bool {
    match meta {
        Some(m) => match lookup(m, CODEX_META_KEY@) {
            Some(Json::Object(codex)) => match lookup(codex, GOAL_META_KEY@) {
                Some(Json::Object(goal)) => lookup(goal, GOAL_REQUESTED_META_KEY@) == Some(
                    Json::Bool(true),
                ),
                _ => false,
            },
            _ => false,
        },
        None => false,
    }
}

/// Only the `codex` namespace can request goal mode: metadata without a
/// `codex` object (such as metadata in the `jaz` dialect alone) never does.
pub proof fn lemma_goal_request_needs_codex_namespace(meta: Seq<(Seq<char>, Json)>)
    ensures
        !(lookup(meta, CODEX_META_KEY@) matches Some(Json::Object(_))) ==> !goal_requested_spec(
            Some(meta),
        ),
{
}

/// Goal mode is requested exactly when `codex.goal.requested` is the boolean
/// `true`: whatever else the goal object holds (an objective or not) plays no
/// part, and a prompt without metadata never requests it.
pub proof fn lemma_goal_requested_exactly(meta: Seq<(Seq<char>, Json)>)
    ensures
        goal_requested_spec(Some(meta)) <==> (lookup(meta, "codex"@) matches Some(
            Json::Object(codex),
        ) && (lookup(codex, "goal"@) matches Some(Json::Object(goal)) && lookup(
            goal,
            "requested"@,
        ) == Some(Json::Bool(true)))),
        !goal_requested_spec(None),
{
}

/// The wire names of this dialect: notification methods, metadata keys, and
/// the key and text of the goal-request context entry.
pub proof fn lemma_wire_names()
    ensures
        CONTEXT_COMPACTED_METHOD@ == "codex/context_compacted"@,
        GOAL_UPDATE_METHOD@ == "thread/goal/updated"@,
        GOAL_CLEAR_METHOD@ == "thread/goal/cleared"@,
        CODEX_META_KEY@ == "codex"@,
        GOAL_META_KEY@ == "goal"@,
        GOAL_REQUESTED_META_KEY@ == "requested"@,
        GOAL_REQUEST_CONTEXT_KEY@ == "codex.goal_request"@,
        GOAL_REQUEST_CONTEXT@ == "Goal mode was explicitly requested for this prompt. If no goal is active, call create_goal with a concise objective derived from the user's request before continuing. Continue according to native Codex goal rules until the goal is complete, blocked, budget-limited, usage-limited, or requires user input."@,
{
}

/// A goal-clear notification names the session under `sessionId` and holds
/// nothing else.
pub proof fn lemma_clear_params(session_id: Seq<char>)
    ensures
        field_of(clear_params(session_id), "sessionId"@) == Some(Json::Str(session_id)),
        clear_params(session_id) matches Json::Object(entries) && entries.len() == 1,
{
    broadcast use lemma_lookup_push, lemma_lookup_empty;

    assert(seq![("sessionId"@, Json::Str(session_id))] =~= Seq::<(Seq<char>, Json)>::empty().push(
        ("sessionId"@, Json::Str(session_id)),
    ));
}

/// Whether the prompt's metadata requests goal mode.
pub fn goal_requested(meta: Option<&Vec<(String, JsonValue)>>) -> (r: bool)
    ensures
        r == goal_requested_spec(meta_model(meta)),
{
    let meta = match meta {
        Some(m) => m,
        None => return false,
    };
    let codex = match object_get(meta, CODEX_META_KEY) {
        Some(JsonValue::Object(c)) => c,
        _ => return false,
    };
    let goal = match object_get(codex, GOAL_META_KEY) {
        Some(JsonValue::Object(g)) => g,
        _ => return false,
    };
    match object_get(goal, GOAL_REQUESTED_META_KEY) {
        Some(JsonValue::Bool(b)) => *b,
        _ => false,
    }
}

/// The additional-context entry that asks the back end to work in goal mode.
pub fn goal_request_context() -> (r: (String, AdditionalContextEntry))
    ensures
        r.0@ == GOAL_REQUEST_CONTEXT_KEY@,
        r.1.value@ == GOAL_REQUEST_CONTEXT@,
        r.1.kind == AdditionalContextKind::Application,
{
    crate::goal::context_entry(GOAL_REQUEST_CONTEXT_KEY, GOAL_REQUEST_CONTEXT)
}

/// A user turn carrying `items`; it asks for goal mode exactly when a goal was
/// requested.
pub fn user_input_op<I>(items: Vec<I>, goal_requested: bool) -> (r: UserInputOp<I>)
    ensures
        r.items == items,
        goal_requested ==> r.additional_context@.len() == 1 && r.additional_context@[0].0@
            == GOAL_REQUEST_CONTEXT_KEY@ && r.additional_context@[0].1.value@
            == GOAL_REQUEST_CONTEXT@ && r.additional_context@[0].1.kind
            == AdditionalContextKind::Application,
        !goal_requested ==> r.additional_context@.len() == 0,
{
    user_input_with_goal(items, goal_requested, GOAL_REQUEST_CONTEXT_KEY, GOAL_REQUEST_CONTEXT)
}

/// Notification that a session's context was compacted.
pub fn context_compacted_notification(session_id: &str) -> (r: ExtNotification)
    ensures
        r.method@ == CONTEXT_COMPACTED_METHOD@,
        r.params@ == compacted_params(session_id@),
{
    ext_notification(CONTEXT_COMPACTED_METHOD, compacted_params_value(session_id))
}

/// Notification that a session's goal was updated; `status` is the goal
/// status as the back end writes it in JSON.
pub fn thread_goal_update_notification(
    session_id: &str,
    event: &ThreadGoalUpdatedEvent,
    status: JsonValue,
) -> (r: ExtNotification)
    ensures
        r.method@ == GOAL_UPDATE_METHOD@,
        r.params@ == goal_update_params(session_id@, event.goal, status@),
{
    ext_notification(GOAL_UPDATE_METHOD, goal_update_params_value(session_id, event, status))
}

/// Parameters of a goal-clear notification.
pub open spec fn clear_params(session_id: Seq<char>) -> Json {
    Json::Object(seq![("sessionId"@, Json::Str(session_id))])
}

/// Notification that a session's goal was cleared.
pub fn thread_goal_clear_notification(session_id: &str) -> (r: ExtNotification)
    ensures
        r.method@ == GOAL_CLEAR_METHOD@,
        r.params@ == clear_params(session_id@),
{
    let mut e: Vec<(String, JsonValue)> = Vec::new();
    push_field(&mut e, "sessionId", str_value(session_id));
    assert(entries_model(e@) =~= seq![("sessionId"@, Json::Str(session_id@))]);
    ext_notification(GOAL_CLEAR_METHOD, object(e))
}

/// The chat message for a goal update: none while the goal is active.
pub fn format_thread_goal_update(event: &ThreadGoalUpdatedEvent) -> (r: Option<String>)
    ensures
        match r {
            Some(s) => goal_update_message(event.goal) == Some(s@),
            None => goal_update_message(event.goal) is None,
        },
{
    format_goal_update(event)
}

/// The goal of an update event as the front end receives it.
pub fn thread_goal_update_payload(event: &ThreadGoalUpdatedEvent, status: JsonValue) -> (r:
    JsonValue)
    ensures
        r@ == goal_payload(event.goal, status@),
{
    goal_payload_value(event, status)
}

} // verus!
