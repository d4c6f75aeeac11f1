//! Goal-mode requests and goal notifications shared by the two front-end
//! dialects (`codex` and `jaz` metadata).

use vstd::prelude::*;
use crate::events::{ThreadGoal, ThreadGoalStatus, ThreadGoalUpdatedEvent};
use crate::json::{
    field_of, lemma_lookup_empty, lemma_lookup_push, entries_model, int_value, object, push_field, str_value, Json, JsonNumber, JsonValue,
    NumberModel,
};
use crate::text::{contains_char, to_owned, trim, trim_spec};

verus! {

/// Kind of an additional-context entry handed to the back end.
pub enum AdditionalContextKind {
    Application,
}

/// Text that the back end adds to a turn's context.
pub struct AdditionalContextEntry {
    pub value: String,
    pub kind: AdditionalContextKind,
}

/// A user turn for the back end: the user's input items and the additional
/// context entries, keyed by name.
pub struct UserInputOp<I> {
    pub items: Vec<I>,
    pub additional_context: Vec<(String, AdditionalContextEntry)>,
}

/// An extension notification for the front end: a method name and its
/// parameters.
pub struct ExtNotification {
    pub method: String,
    pub params: JsonValue,
}

/// The context entry under `key` with text `value`, of the application kind.
pub fn context_entry(key: &str, value: &str) -> (r: (String, AdditionalContextEntry))
    ensures
        r.0@ == key@,
        r.1.value@ == value@,
        r.1.kind == AdditionalContextKind::Application,
{
    (to_owned(key), AdditionalContextEntry { value: to_owned(value), kind: AdditionalContextKind::Application })
}

/// A user turn carrying `items`, with the goal-request entry `(key, value)` in
/// its additional context exactly when a goal was requested.
pub fn user_input_with_goal<I>(items: Vec<I>, goal_requested: bool, key: &str, value: &str) -> (r:
    UserInputOp<I>)
    ensures
        r.items == items,
        goal_requested ==> r.additional_context@.len() == 1 && r.additional_context@[0].0@ == key@
            && r.additional_context@[0].1.value@ == value@ && r.additional_context@[0].1.kind
            == AdditionalContextKind::Application,
        !goal_requested ==> r.additional_context@.len() == 0,
{
    let mut additional_context: Vec<(String, AdditionalContextEntry)> = Vec::new();
    if goal_requested {
        additional_context.push(context_entry(key, value));
    }
    UserInputOp { items, additional_context }
}

/// A notification with the given method and parameters.
pub fn ext_notification(method: &str, params: JsonValue) -> (r: ExtNotification)
    ensures
        r.method@ == method@,
        r.params == params,
{
    ExtNotification { method: to_owned(method), params }
}

/// Parameters of a context-compaction notification.
pub open spec fn compacted_params(session_id: Seq<char>) -> Json {
    Json::Object(compacted_entries(session_id))
}

pub open spec fn compacted_entries(session_id: Seq<char>) -> Seq<(Seq<char>, Json)> {
    Seq::empty().push(("sessionId"@, Json::Str(session_id))).push(
        ("source"@, Json::Str("codex"@)),
    ).push(("status"@, Json::Str("completed"@))).push(("trigger"@, Json::Str("manual"@)))
}

/// Parameters of a context-compaction notification for a session.
pub fn compacted_params_value(session_id: &str) -> (r: JsonValue)
    ensures
        r@ == compacted_params(session_id@),
{
    let mut e: Vec<(String, JsonValue)> = Vec::new();
    push_field(&mut e, "sessionId", str_value(session_id));
    push_field(&mut e, "source", str_value("codex"));
    push_field(&mut e, "status", str_value("completed"));
    push_field(&mut e, "trigger", str_value("manual"));
    assert(entries_model(e@) =~= compacted_entries(session_id@));
    object(e)
}

/// Model of an optional integer as JSON: the number, or `null`.
pub open spec fn opt_int_model(i: Option<i64>) -> Json {
    match i {
        Some(v) => Json::Number(NumberModel::Int(v as int)),
        None => Json::Null,
    }
}

/// The goal as the front end receives it; `status` is the goal status as the
/// back end writes it in JSON.
pub open spec fn goal_payload(goal: ThreadGoal, status: Json) -> Json {
    Json::Object(goal_payload_entries(goal, status))
}

pub open spec fn goal_payload_entries(goal: ThreadGoal, status: Json) -> Seq<(Seq<char>, Json)> {
    Seq::empty().push(("threadId"@, Json::Str(goal.thread_id@))).push(
        ("objective"@, Json::Str(goal.objective@)),
    ).push(("status"@, status)).push(("tokenBudget"@, opt_int_model(goal.token_budget))).push(
        ("tokensUsed"@, Json::Number(NumberModel::Int(goal.tokens_used as int))),
    ).push(("timeUsedSeconds"@, Json::Number(NumberModel::Int(goal.time_used_seconds as int)))).push(
        ("createdAt"@, Json::Number(NumberModel::Int(goal.created_at as int))),
    ).push(("updatedAt"@, Json::Number(NumberModel::Int(goal.updated_at as int))))
}

/// The goal of an update event as the front end receives it.
pub fn goal_payload_value(event: &ThreadGoalUpdatedEvent, status: JsonValue) -> (r: JsonValue)
    ensures
        r@ == goal_payload(event.goal, status@),
{
    let ghost status_model = status@;
    let goal = &event.goal;
    let mut e: Vec<(String, JsonValue)> = Vec::new();
    push_field(&mut e, "threadId", str_value(goal.thread_id.as_str()));
    push_field(&mut e, "objective", str_value(goal.objective.as_str()));
    push_field(&mut e, "status", status);
    let budget = match goal.token_budget {
        Some(b) => JsonValue::Number(JsonNumber::Int(b)),
        None => JsonValue::Null,
    };
    push_field(&mut e, "tokenBudget", budget);
    push_field(&mut e, "tokensUsed", int_value(goal.tokens_used));
    push_field(&mut e, "timeUsedSeconds", int_value(goal.time_used_seconds));
    push_field(&mut e, "createdAt", int_value(goal.created_at));
    push_field(&mut e, "updatedAt", int_value(goal.updated_at));
    assert(entries_model(e@) =~= goal_payload_entries(event.goal, status_model));
    object(e)
}

/// Parameters of a goal-update notification.
pub open spec fn goal_update_params(session_id: Seq<char>, goal: ThreadGoal, status: Json) -> Json {
    Json::Object(
        Seq::empty().push(("sessionId"@, Json::Str(session_id))).push(
            ("goal"@, goal_payload(goal, status)),
        ),
    )
}

/// Parameters of a goal-update notification for a session.
pub fn goal_update_params_value(
    session_id: &str,
    event: &ThreadGoalUpdatedEvent,
    status: JsonValue,
) -> (r: JsonValue)
    ensures
        r@ == goal_update_params(session_id@, event.goal, status@),
{
    let mut e: Vec<(String, JsonValue)> = Vec::new();
    push_field(&mut e, "sessionId", str_value(session_id));
    let ghost status_model = status@;
    push_field(&mut e, "goal", goal_payload_value(event, status));
    object(e)
}

/// How a goal status reads in a chat message.
pub open spec fn goal_status_text(status: ThreadGoalStatus) -> Seq<char> {
    match status {
        ThreadGoalStatus::Active => "active"@,
        ThreadGoalStatus::Paused => "paused"@,
        ThreadGoalStatus::BudgetLimited => "budget limited"@,
        ThreadGoalStatus::Blocked => "blocked"@,
        ThreadGoalStatus::UsageLimited => "usage limited"@,
        ThreadGoalStatus::Complete => "complete"@,
    }
}

/// The chat message for a goal update: none while the goal is active;
/// otherwise the status and the trimmed objective, on the same line or, when
/// the objective spans lines, below it.
pub open spec fn goal_update_message(goal: ThreadGoal) -> Option<Seq<char>> {
    if goal.status is Active {
        None
    } else {
        let objective = trim_spec(goal.objective@);
        Some(
            "Goal updated ("@ + goal_status_text(goal.status) + (if objective.contains('\n') {
                "):\n"@
            } else {
                "): "@
            }) + objective,
        )
    }
}

/// The chat message for a goal update event, if any.
pub fn format_goal_update(event: &ThreadGoalUpdatedEvent) -> (r: Option<String>)
    ensures
        match r {
            Some(s) => goal_update_message(event.goal) == Some(s@),
            None => goal_update_message(event.goal) is None,
        },
{
    let status = match event.goal.status {
        ThreadGoalStatus::Active => {
            return None;
        },
        ThreadGoalStatus::Paused => "paused",
        ThreadGoalStatus::BudgetLimited => "budget limited",
        ThreadGoalStatus::Blocked => "blocked",
        ThreadGoalStatus::UsageLimited => "usage limited",
        ThreadGoalStatus::Complete => "complete",
    };
    let objective = trim(event.goal.objective.as_str());
    let mut r = to_owned("Goal updated (");
    r.append(status);
    if contains_char(objective, '\n') {
        r.append("):\n");
    } else {
        r.append("): ");
    }
    r.append(objective);
    Some(r)
}


/// Lengths and distinguishing characters of the keys of goal notifications.
pub proof fn lemma_goal_keys()
    ensures
        "threadId"@.len() == 8,
        "objective"@.len() == 9 && "objective"@[0] == 'o',
        "createdAt"@.len() == 9 && "createdAt"@[0] == 'c',
        "updatedAt"@.len() == 9 && "updatedAt"@[0] == 'u',
        "sessionId"@.len() == 9 && "sessionId"@[0] == 's',
        "status"@.len() == 6 && "status"@[1] == 't',
        "source"@.len() == 6 && "source"@[1] == 'o',
        "tokenBudget"@.len() == 11,
        "tokensUsed"@.len() == 10,
        "timeUsedSeconds"@.len() == 15,
        "goal"@.len() == 4,
        "trigger"@.len() == 7,
{
    reveal_strlit("threadId");
    reveal_strlit("objective");
    reveal_strlit("createdAt");
    reveal_strlit("updatedAt");
    reveal_strlit("sessionId");
    reveal_strlit("status");
    reveal_strlit("source");
    reveal_strlit("tokenBudget");
    reveal_strlit("tokensUsed");
    reveal_strlit("timeUsedSeconds");
    reveal_strlit("goal");
    reveal_strlit("trigger");
}

/// The goal payload reports each of the goal's own fields under its name:
/// its thread, objective and status, its token budget (`null` when it has
/// none), the tokens and seconds used, and when it was created and updated.
pub proof fn lemma_goal_payload_fields(goal: ThreadGoal, status: Json)
    ensures
        ({
            let p = goal_payload(goal, status);
            &&& field_of(p, "threadId"@) == Some(Json::Str(goal.thread_id@))
            &&& field_of(p, "objective"@) == Some(Json::Str(goal.objective@))
            &&& field_of(p, "status"@) == Some(status)
            &&& field_of(p, "tokenBudget"@) == Some(
                match goal.token_budget {
                    Some(b) => Json::Number(NumberModel::Int(b as int)),
                    None => Json::Null,
                },
            )
            &&& field_of(p, "tokensUsed"@) == Some(Json::Number(NumberModel::Int(goal.tokens_used as int)))
            &&& field_of(p, "timeUsedSeconds"@) == Some(
                Json::Number(NumberModel::Int(goal.time_used_seconds as int)),
            )
            &&& field_of(p, "createdAt"@) == Some(Json::Number(NumberModel::Int(goal.created_at as int)))
            &&& field_of(p, "updatedAt"@) == Some(Json::Number(NumberModel::Int(goal.updated_at as int)))
        }),
{
    broadcast use lemma_lookup_push, lemma_lookup_empty;

    lemma_goal_keys();
}

/// A goal-update notification names its session and carries the goal payload.
pub proof fn lemma_goal_update_params(session_id: Seq<char>, goal: ThreadGoal, status: Json)
    ensures
        field_of(goal_update_params(session_id, goal, status), "sessionId"@) == Some(
            Json::Str(session_id),
        ),
        field_of(goal_update_params(session_id, goal, status), "goal"@) == Some(
            goal_payload(goal, status),
        ),
{
    broadcast use lemma_lookup_push, lemma_lookup_empty;

    lemma_goal_keys();
}

/// A compaction notification names its session and says that this back end
/// completed a manual compaction.
pub proof fn lemma_compacted_params(session_id: Seq<char>)
    ensures
        field_of(compacted_params(session_id), "sessionId"@) == Some(Json::Str(session_id)),
        field_of(compacted_params(session_id), "source"@) == Some(Json::Str("codex"@)),
        field_of(compacted_params(session_id), "status"@) == Some(Json::Str("completed"@)),
        field_of(compacted_params(session_id), "trigger"@) == Some(Json::Str("manual"@)),
{
    broadcast use lemma_lookup_push, lemma_lookup_empty;

    lemma_goal_keys();
}

/// The chat message for a goal update: there is none exactly while the goal
/// is active; otherwise it reads "Goal updated (<status>):", where the status
/// word is the goal's own (paused, budget limited, blocked, usage limited,
/// complete), followed by a line break when the trimmed objective spans lines
/// and a space otherwise, and then the trimmed objective.
pub proof fn lemma_goal_update_message(goal: ThreadGoal)
    ensures
        goal.status is Active <==> goal_update_message(goal) is None,
        goal_update_message(goal) matches Some(m) ==> ({
            let word = match goal.status {
                ThreadGoalStatus::Paused => "paused"@,
                ThreadGoalStatus::BudgetLimited => "budget limited"@,
                ThreadGoalStatus::Blocked => "blocked"@,
                ThreadGoalStatus::UsageLimited => "usage limited"@,
                ThreadGoalStatus::Complete => "complete"@,
                ThreadGoalStatus::Active => Seq::empty(),
            };
            let objective = trim_spec(goal.objective@);
            let gap = if objective.contains('\n') {
                seq!['\n']
            } else {
                seq![' ']
            };
            m == "Goal updated ("@ + word + seq![')', ':'] + gap + objective
        }),
{
    reveal_strlit("):\n");
    reveal_strlit("): ");
    if !(goal.status is Active) {
        let objective = trim_spec(goal.objective@);
        if objective.contains('\n') {
            assert("):\n"@ =~= seq![')', ':'] + seq!['\n']);
        } else {
            assert("): "@ =~= seq![')', ':'] + seq![' ']);
        }
        let word = goal_status_text(goal.status);
        assert("Goal updated ("@ + word + "):\n"@ =~= "Goal updated ("@ + word + seq![')', ':']
            + seq!['\n']);
        assert("Goal updated ("@ + word + "): "@ =~= "Goal updated ("@ + word + seq![')', ':']
            + seq![' ']);
    }
}

} // verus!
