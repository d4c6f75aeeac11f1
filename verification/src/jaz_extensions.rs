//! Goal requests and notifications in the `jaz` metadata dialect.

use vstd::prelude::*;
use crate::events::ThreadGoalUpdatedEvent;
use crate::goal::{
    compacted_params, compacted_params_value, ext_notification, format_goal_update,
    goal_payload, goal_payload_value, goal_update_message, goal_update_params,
    goal_update_params_value, user_input_with_goal, AdditionalContextEntry, AdditionalContextKind,
    ExtNotification, UserInputOp,
};
use crate::json::{lookup, object_get, Json, JsonValue};
use crate::developer_instructions::meta_model;

verus! {

pub const CONTEXT_COMPACTED_METHOD: &'static str = "_jaz/context_compacted";

pub const GOAL_UPDATE_METHOD: &'static str = "_jaz/session_goal_update";

pub const JAZ_META_KEY: &'static str = "jaz";

pub const GOAL_REQUESTED_META_KEY: &'static str = "goalRequested";

pub const GOAL_REQUEST_CONTEXT_KEY: &'static str = "jaz.goal_request";

pub const GOAL_REQUEST_CONTEXT: &'static str = "Use native Codex goal support for this prompt. If no goal is active, create one with the user's request as the objective. Continue according to native Codex goal rules until the goal is complete, blocked, budget-limited, usage-limited, or requires user input.";

/// Metadata requests goal mode when `jaz.goalRequested` is `true`.
pub open spec fn goal_requested_spec(meta: Option<Seq<(Seq<char>, Json)>>) -> bool {
    match meta {
        Some(m) => match lookup(m, JAZ_META_KEY@) {
            Some(Json::Object(jaz)) => lookup(jaz, GOAL_REQUESTED_META_KEY@) == Some(Json::Bool(true)),
            _ => false,
        },
        None => false,
    }
}

/// Only the `jaz` namespace can request goal mode: metadata without a `jaz`
/// object never does.
pub proof fn lemma_goal_request_needs_jaz_namespace(meta: Seq<(Seq<char>, Json)>)
    ensures
        !(lookup(meta, JAZ_META_KEY@) matches Some(Json::Object(_))) ==> !goal_requested_spec(
            Some(meta),
        ),
{
}

/// Goal mode is requested exactly when `jaz.goalRequested` is the boolean
/// `true`, whatever else the `jaz` object holds; a prompt without metadata
/// never requests it.
pub proof fn lemma_goal_requested_exactly(meta: Seq<(Seq<char>, Json)>)
    ensures
        goal_requested_spec(Some(meta)) <==> (lookup(meta, "jaz"@) matches Some(Json::Object(jaz))
            && lookup(jaz, "goalRequested"@) == Some(Json::Bool(true))),
        !goal_requested_spec(None),
{
}

/// The wire names of this dialect: notification methods, metadata keys, and
/// the key and text of the goal-request context entry.
pub proof fn lemma_wire_names()
    ensures
        CONTEXT_COMPACTED_METHOD@ == "_jaz/context_compacted"@,
        GOAL_UPDATE_METHOD@ == "_jaz/session_goal_update"@,
        JAZ_META_KEY@ == "jaz"@,
        GOAL_REQUESTED_META_KEY@ == "goalRequested"@,
        GOAL_REQUEST_CONTEXT_KEY@ == "jaz.goal_request"@,
        GOAL_REQUEST_CONTEXT@ == "Use native Codex goal support for this prompt. If no goal is active, create one with the user's request as the objective. Continue according to native Codex goal rules until the goal is complete, blocked, budget-limited, usage-limited, or requires user input."@,
{
}

/// Whether the prompt's metadata requests goal mode.
pub fn goal_requested(meta: Option<&Vec<(String, JsonValue)>>) -> (r: bool)
    ensures
        r == goal_requested_spec(meta_model(meta)),
{
    let meta = match meta {
        Some(m) => m,
        None => return false,
    };
    let jaz = match object_get(meta, JAZ_META_KEY) {
        Some(JsonValue::Object(j)) => j,
        _ => return false,
    };
    match object_get(jaz, GOAL_REQUESTED_META_KEY) {
        Some(JsonValue::Bool(b)) => *b,
        _ => false,
    }
}

/// The additional-context entry that asks the back end to work in goal mode.
pub fn goal_request_context() -> (r: (String, AdditionalContextEntry))
    ensures
        r.0@ == GOAL_REQUEST_CONTEXT_KEY@,
        r.1.value@ == GOAL_REQUEST_CONTEXT@,
        r.1.kind == AdditionalContextKind::Application,
{
    crate::goal::context_entry(GOAL_REQUEST_CONTEXT_KEY, GOAL_REQUEST_CONTEXT)
}

/// A user turn carrying `items`; it asks for goal mode exactly when a goal was
/// requested.
pub fn user_input_op<I>(items: Vec<I>, goal_requested: bool) -> (r: UserInputOp<I>)
    ensures
        r.items == items,
        goal_requested ==> r.additional_context@.len() == 1 && r.additional_context@[0].0@
            == GOAL_REQUEST_CONTEXT_KEY@ && r.additional_context@[0].1.value@
            == GOAL_REQUEST_CONTEXT@ && r.additional_context@[0].1.kind
            == AdditionalContextKind::Application,
        !goal_requested ==> r.additional_context@.len() == 0,
{
    user_input_with_goal(items, goal_requested, GOAL_REQUEST_CONTEXT_KEY, GOAL_REQUEST_CONTEXT)
}

/// Notification that a session's context was compacted.
pub fn context_compacted_notification(session_id: &str) -> (r: ExtNotification)
    ensures
        r.method@ == CONTEXT_COMPACTED_METHOD@,
        r.params@ == compacted_params(session_id@),
{
    ext_notification(CONTEXT_COMPACTED_METHOD, compacted_params_value(session_id))
}

/// Notification that a session's goal was updated; `status` is the goal
/// status as the back end writes it in JSON.
pub fn thread_goal_update_notification(
    session_id: &str,
    event: &ThreadGoalUpdatedEvent,
    status: JsonValue,
) -> (r: ExtNotification)
    ensures
        r.method@ == GOAL_UPDATE_METHOD@,
        r.params@ == goal_update_params(session_id@, event.goal, status@),
{
    ext_notification(GOAL_UPDATE_METHOD, goal_update_params_value(session_id, event, status))
}

/// The chat message for a goal update: none while the goal is active.
pub fn format_thread_goal_update(event: &ThreadGoalUpdatedEvent) -> (r: Option<String>)
    ensures
        match r {
            Some(s) => goal_update_message(event.goal) == Some(s@),
            None => goal_update_message(event.goal) is None,
        },
{
    format_goal_update(event)
}

/// The goal of an update event as the front end receives it.
pub fn thread_goal_update_payload(event: &ThreadGoalUpdatedEvent, status: JsonValue) -> (r:
    JsonValue)
    ensures
        r@ == goal_payload(event.goal, status@),
{
    goal_payload_value(event, status)
}

} // verus!
