//! Progress updates about sub-agents, derived from back-end collaboration
//! events, in the shape that the front end's sub-agent panel reads.

use vstd::prelude::*;
use crate::events::{
    RawResponseItemEvent, AgentStatus, CollabAgentInteractionBeginEvent, CollabAgentInteractionEndEvent, CollabAgentRef,
    CollabAgentSpawnEndEvent, CollabAgentStatusEntry, CollabCloseBeginEvent, CollabCloseEndEvent,
    CollabResumeBeginEvent, CollabResumeEndEvent, CollabWaitingBeginEvent, CollabWaitingEndEvent,
    EventMsg, ResponseItem, SubAgentActivityEvent, SubAgentActivityKind,
};
use crate::json::{
    lemma_lookup_empty, lemma_lookup_push, field_of, is_object_or_null, lemma_set_entries, set_field, set_value_field,
    entries_model, int_value, items_model, object, opt_str_model, opt_str_value, opt_view,
    push_field, push_item, str_value, Json, JsonValue, NumberModel,
};
use crate::text::{
    after_last, after_last_spec, char_len, rfind_spec, rsplit_once, same_text, starts_with,
};

verus! {

/// Name and role that the front end resolved for a sub-agent.
#[derive(Debug)]
pub struct ProviderSubagentIdentity {
    pub name: Option<String>,
    pub role: Option<String>,
}

impl Default for ProviderSubagentIdentity {
    fn default() -> (r: Self)
        ensures
            r.name is None,
            r.role is None,
    {
        ProviderSubagentIdentity { name: None, role: None }
    }
}

/// An update after the identity's name and role (those present) were written
/// into it.
pub open spec fn identity_applied(j: Json, identity: ProviderSubagentIdentity) -> Json {
    let named = match identity.name {
        Some(n) => set_field(j, "name"@, Json::Str(n@)),
        None => j,
    };
    match identity.role {
        Some(r) => set_field(named, "role"@, Json::Str(r@)),
        None => named,
    }
}

/// Writes the resolved name and role into an update; the update must be an
/// object (or `null`) when there is anything to write.
pub fn apply_provider_subagent_identity(update: &mut JsonValue, identity: &ProviderSubagentIdentity)
    requires
        identity.name is Some || identity.role is Some ==> is_object_or_null(old(update)@),
    ensures
        final(update)@ == identity_applied(old(update)@, *identity),
{
    if let Some(name) = &identity.name {
        set_value_field(update, "name", str_value(name.as_str()));
    }
    if let Some(role) = &identity.role {
        set_value_field(update, "role", str_value(role.as_str()));
    }
}

/// Applying an identity to an object keeps every other field, and the written
/// name and role read back.
pub proof fn lemma_identity_keeps_other_fields(
    j: Json,
    identity: ProviderSubagentIdentity,
    key: Seq<char>,
)
    requires
        j is Object,
    ensures
        key != "name"@ && key != "role"@ ==> field_of(identity_applied(j, identity), key)
            == field_of(j, key),
        identity.name matches Some(n) ==> field_of(identity_applied(j, identity), "name"@)
            == Some(Json::Str(n@)),
        identity.role matches Some(r) ==> field_of(identity_applied(j, identity), "role"@)
            == Some(Json::Str(r@)),
        identity.name is None && identity.role is None ==> identity_applied(j, identity) == j,
{
    let e0 = j->Object_0;
    let named = match identity.name {
        Some(n) => set_field(j, "name"@, Json::Str(n@)),
        None => j,
    };
    let e1 = named->Object_0;
    if let Some(n) = identity.name {
        lemma_set_entries(e0, "name"@, Json::Str(n@), key);
        lemma_set_entries(e0, "name"@, Json::Str(n@), "role"@);
    }
    if let Some(r) = identity.role {
        lemma_set_entries(e1, "role"@, Json::Str(r@), key);
        lemma_set_entries(e1, "role"@, Json::Str(r@), "name"@);
    }
    assert("name"@ != "role"@) by {
        reveal_strlit("name");
        reveal_strlit("role");
        assert("name"@[0] != "role"@[0]);
    }
}

/// The text the front end shows for an agent status.
pub open spec fn status_label(s: AgentStatus) -> Seq<char> {
    match s {
        AgentStatus::PendingInit => "starting"@,
        AgentStatus::Running => "running"@,
        AgentStatus::Interrupted => "interrupted"@,
        AgentStatus::Completed(_) => "completed"@,
        AgentStatus::Errored(_) => "failed"@,
        AgentStatus::Shutdown => "closed"@,
        AgentStatus::NotFound => "not_found"@,
    }
}

pub open spec fn str_j(s: Seq<char>) -> Json {
    Json::Str(s)
}

pub open spec fn int_j(i: i64) -> Json {
    Json::Number(NumberModel::Int(i as int))
}

pub open spec fn opt_j(s: Option<String>) -> Json {
    opt_str_model(opt_view(s))
}

/// The entries that every thread-based update starts with.
pub open spec fn head_spec(id: Seq<char>, parent: Seq<char>) -> Seq<(Seq<char>, Json)> {
    Seq::empty().push(("provider"@, str_j("codex"@))).push(("id"@, str_j(id))).push(
        ("thread_id"@, str_j(id)),
    ).push(("parent_id"@, str_j(parent)))
}

/// The entries of `head_spec`, followed by the agent's name and role.
pub open spec fn named_head_spec(
    id: Seq<char>,
    parent: Seq<char>,
    name: Option<String>,
    role: Option<String>,
) -> Seq<(Seq<char>, Json)> {
    head_spec(id, parent).push(("name"@, opt_j(name))).push(("role"@, opt_j(role)))
}

pub open spec fn spawn_end_update(e: CollabAgentSpawnEndEvent, id: Seq<char>) -> Json {
    Json::Object(
        named_head_spec(id, e.sender_thread_id@, e.new_agent_nickname, e.new_agent_role).push(
            ("status"@, str_j(status_label(e.status))),
        ).push(("summary"@, str_j("Spawned"@))).push(("prompt"@, str_j(e.prompt@))).push(
            ("model"@, str_j(e.model@)),
        ).push(("reasoning_effort"@, str_j(e.reasoning_effort@))).push(
            ("completed_at_ms"@, int_j(e.completed_at_ms)),
        ),
    )
}

pub open spec fn interaction_begin_update(e: CollabAgentInteractionBeginEvent) -> Json {
    Json::Object(
        head_spec(e.receiver_thread_id@, e.sender_thread_id@).push(
            ("status"@, str_j("running"@)),
        ).push(("summary"@, str_j("Working"@))).push(("prompt"@, str_j(e.prompt@))).push(
            ("started_at_ms"@, int_j(e.started_at_ms)),
        ),
    )
}

pub open spec fn interaction_end_update(e: CollabAgentInteractionEndEvent) -> Json {
    Json::Object(
        named_head_spec(
            e.receiver_thread_id@,
            e.sender_thread_id@,
            e.receiver_agent_nickname,
            e.receiver_agent_role,
        ).push(("status"@, str_j(status_label(e.status)))).push(
            ("summary"@, str_j("Responded"@)),
        ).push(("prompt"@, str_j(e.prompt@))).push(
            ("completed_at_ms"@, int_j(e.completed_at_ms)),
        ),
    )
}

pub open spec fn waiting_id_update(id: Seq<char>, parent: Seq<char>, started_at_ms: i64) -> Json {
    Json::Object(
        head_spec(id, parent).push(("status"@, str_j("running"@))).push(
            ("summary"@, str_j("Waiting"@)),
        ).push(("started_at_ms"@, int_j(started_at_ms))),
    )
}

pub open spec fn waiting_agent_update(a: CollabAgentRef, parent: Seq<char>, started_at_ms: i64) -> Json {
    Json::Object(
        named_head_spec(a.thread_id@, parent, a.agent_nickname, a.agent_role).push(
            ("status"@, str_j("running"@)),
        ).push(("summary"@, str_j("Waiting"@))).push(("started_at_ms"@, int_j(started_at_ms))),
    )
}

pub open spec fn waiting_begin_updates(e: CollabWaitingBeginEvent) -> Seq<Json> {
    if e.receiver_agents@.len() == 0 {
        Seq::new(
            e.receiver_thread_ids@.len(),
            |k: int| waiting_id_update(e.receiver_thread_ids@[k]@, e.sender_thread_id@, e.started_at_ms),
        )
    } else {
        Seq::new(
            e.receiver_agents@.len(),
            |k: int| waiting_agent_update(e.receiver_agents@[k], e.sender_thread_id@, e.started_at_ms),
        )
    }
}

pub open spec fn waiting_status_update(
    id: Seq<char>,
    status: AgentStatus,
    parent: Seq<char>,
    completed_at_ms: i64,
) -> Json {
    Json::Object(
        head_spec(id, parent).push(("status"@, str_j(status_label(status)))).push(
            ("summary"@, str_j("Wait finished"@)),
        ).push(("completed_at_ms"@, int_j(completed_at_ms))),
    )
}

pub open spec fn waiting_entry_update(
    a: CollabAgentStatusEntry,
    parent: Seq<char>,
    completed_at_ms: i64,
) -> Json {
    Json::Object(
        named_head_spec(a.thread_id@, parent, a.agent_nickname, a.agent_role).push(
            ("status"@, str_j(status_label(a.status))),
        ).push(("summary"@, str_j("Wait finished"@))).push(
            ("completed_at_ms"@, int_j(completed_at_ms)),
        ),
    )
}

pub open spec fn waiting_end_updates(e: CollabWaitingEndEvent) -> Seq<Json> {
    if e.agent_statuses@.len() == 0 {
        Seq::new(
            e.statuses@.len(),
            |k: int|
                waiting_status_update(
                    e.statuses@[k].0@,
                    e.statuses@[k].1,
                    e.sender_thread_id@,
                    e.completed_at_ms,
                ),
        )
    } else {
        Seq::new(
            e.agent_statuses@.len(),
            |k: int| waiting_entry_update(e.agent_statuses@[k], e.sender_thread_id@, e.completed_at_ms),
        )
    }
}

pub open spec fn resume_begin_update(e: CollabResumeBeginEvent) -> Json {
    Json::Object(
        named_head_spec(
            e.receiver_thread_id@,
            e.sender_thread_id@,
            e.receiver_agent_nickname,
            e.receiver_agent_role,
        ).push(("status"@, str_j("running"@))).push(("summary"@, str_j("Resuming"@))).push(
            ("started_at_ms"@, int_j(e.started_at_ms)),
        ),
    )
}

pub open spec fn resume_end_update(e: CollabResumeEndEvent) -> Json {
    Json::Object(
        named_head_spec(
            e.receiver_thread_id@,
            e.sender_thread_id@,
            e.receiver_agent_nickname,
            e.receiver_agent_role,
        ).push(("status"@, str_j(status_label(e.status)))).push(
            ("summary"@, str_j("Resumed"@)),
        ).push(("completed_at_ms"@, int_j(e.completed_at_ms))),
    )
}

pub open spec fn close_begin_update(e: CollabCloseBeginEvent) -> Json {
    Json::Object(
        head_spec(e.receiver_thread_id@, e.sender_thread_id@).push(
            ("status"@, str_j("running"@)),
        ).push(("summary"@, str_j("Closing"@))).push(("started_at_ms"@, int_j(e.started_at_ms))),
    )
}

pub open spec fn close_end_update(e: CollabCloseEndEvent) -> Json {
    Json::Object(
        named_head_spec(
            e.receiver_thread_id@,
            e.sender_thread_id@,
            e.receiver_agent_nickname,
            e.receiver_agent_role,
        ).push(("status"@, str_j("closed"@))).push(("summary"@, str_j("Closed"@))).push(
            ("completed_at_ms"@, int_j(e.completed_at_ms)),
        ),
    )
}

/// Status and summary reported for a kind of sub-agent activity.
pub open spec fn activity_status(kind: SubAgentActivityKind) -> (Seq<char>, Seq<char>) {
    match kind {
        SubAgentActivityKind::Started => ("running"@, "Spawned"@),
        SubAgentActivityKind::Interacted => ("running"@, "Working"@),
        SubAgentActivityKind::Interrupted => ("cancelled"@, "Interrupted"@),
    }
}

/// The key under which the activity's time is reported.
pub open spec fn activity_time_key(kind: SubAgentActivityKind) -> Seq<char> {
    match kind {
        SubAgentActivityKind::Interrupted => "completed_at_ms"@,
        _ => "started_at_ms"@,
    }
}

pub open spec fn activity_update(e: SubAgentActivityEvent) -> Json {
    Json::Object(
        Seq::empty().push(("provider"@, str_j("codex"@))).push(
            ("id"@, str_j(e.agent_path.path@)),
        ).push(("thread_id"@, str_j(e.agent_thread_id@))).push(
            ("name"@, str_j(e.agent_path.name@)),
        ).push(("task"@, str_j(e.agent_path.name@))).push(
            ("status"@, str_j(activity_status(e.kind).0)),
        ).push(("summary"@, str_j(activity_status(e.kind).1))).push(
            (activity_time_key(e.kind), int_j(e.occurred_at_ms)),
        ),
    )
}

/// First line of a final answer that a sub-agent sends to its parent.
pub open spec fn final_answer_marker() -> Seq<char> {
    "Message Type: FINAL_ANSWER\n"@
}

/// A message from `author` to `recipient` is a completion report: the author's
/// path ends in a non-empty name below the recipient's path, and its text
/// starts with the final-answer marker.
pub open spec fn is_v2_completion_spec(
    author: Seq<char>,
    recipient: Seq<char>,
    plaintext: Option<Seq<char>>,
) -> bool {
    let k = rfind_spec(author, '/');
    &&& k >= 0
    &&& author.skip(k + 1).len() > 0
    &&& author.take(k) == recipient
    &&& plaintext matches Some(t) && final_answer_marker().is_prefix_of(t)
}

pub open spec fn completion_update(author: Seq<char>) -> Json {
    Json::Object(
        Seq::empty().push(("provider"@, str_j("codex"@))).push(("id"@, str_j(author))).push(
            ("name"@, str_j(after_last_spec(author, '/'))),
        ).push(("status"@, str_j("completed"@))).push(("summary"@, str_j("Completed"@))),
    )
}

/// All updates that `provider_subagent_updates` reports for an event.
pub open spec fn subagent_updates_spec(event: EventMsg) -> Seq<Json> {
    match event {
        EventMsg::CollabAgentSpawnEnd(e) => match e.new_thread_id {
            Some(t) => seq![spawn_end_update(e, t@)],
            None => Seq::empty(),
        },
        EventMsg::CollabAgentInteractionBegin(e) => seq![interaction_begin_update(e)],
        EventMsg::CollabAgentInteractionEnd(e) => seq![interaction_end_update(e)],
        EventMsg::CollabWaitingBegin(e) => waiting_begin_updates(e),
        EventMsg::CollabWaitingEnd(e) => waiting_end_updates(e),
        EventMsg::CollabResumeBegin(e) => seq![resume_begin_update(e)],
        EventMsg::CollabResumeEnd(e) => seq![resume_end_update(e)],
        EventMsg::CollabCloseBegin(e) => seq![close_begin_update(e)],
        EventMsg::CollabCloseEnd(e) => seq![close_end_update(e)],
        EventMsg::SubAgentActivity(e) => seq![activity_update(e)],
        EventMsg::RawResponseItem(e) => match e.item {
            ResponseItem::AgentMessage { author, recipient, plaintext_content, .. } => {
                if is_v2_completion_spec(author@, recipient@, opt_view(plaintext_content)) {
                    seq![completion_update(author@)]
                } else {
                    Seq::empty()
                }
            },
            ResponseItem::Other => Seq::empty(),
        },
        _ => Seq::empty(),
    }
}

/// The labels that the front end shows for agent statuses.
pub proof fn lemma_status_labels(s: AgentStatus)
    ensures
        s is PendingInit ==> status_label(s) == "starting"@,
        s is Running ==> status_label(s) == "running"@,
        s is Interrupted ==> status_label(s) == "interrupted"@,
        s is Completed ==> status_label(s) == "completed"@,
        s is Errored ==> status_label(s) == "failed"@,
        s is Shutdown ==> status_label(s) == "closed"@,
        s is NotFound ==> status_label(s) == "not_found"@,
{
}

/// Lengths and first characters of the keys of an update, which tell them
/// apart.
pub proof fn lemma_update_keys()
    ensures
        "provider"@.len() == 8,
        "id"@.len() == 2,
        "thread_id"@.len() == 9 && "thread_id"@[0] == 't',
        "parent_id"@.len() == 9 && "parent_id"@[0] == 'p',
        "name"@.len() == 4 && "name"@[0] == 'n',
        "role"@.len() == 4 && "role"@[0] == 'r',
        "task"@.len() == 4 && "task"@[0] == 't',
        "status"@.len() == 6 && "status"@[0] == 's',
        "prompt"@.len() == 6 && "prompt"@[0] == 'p',
        "summary"@.len() == 7,
        "model"@.len() == 5,
        "reasoning_effort"@.len() == 16,
        "completed_at_ms"@.len() == 15,
        "started_at_ms"@.len() == 13,
{
    reveal_strlit("provider");
    reveal_strlit("id");
    reveal_strlit("thread_id");
    reveal_strlit("parent_id");
    reveal_strlit("name");
    reveal_strlit("role");
    reveal_strlit("task");
    reveal_strlit("status");
    reveal_strlit("prompt");
    reveal_strlit("summary");
    reveal_strlit("model");
    reveal_strlit("reasoning_effort");
    reveal_strlit("completed_at_ms");
    reveal_strlit("started_at_ms");
}

/// A sub-agent's update about a thread: it comes from this back end, is
/// about thread `id` (reported under both `id` and `thread_id`) and was sent
/// by `parent`.
pub open spec fn about_thread(u: Json, id: Seq<char>, parent: Seq<char>) -> bool {
    &&& field_of(u, "provider"@) == Some(Json::Str("codex"@))
    &&& field_of(u, "id"@) == Some(Json::Str(id))
    &&& field_of(u, "thread_id"@) == Some(Json::Str(id))
    &&& field_of(u, "parent_id"@) == Some(Json::Str(parent))
}

/// The update carries the agent's nickname and role (`null` when unknown).
pub open spec fn names_agent(u: Json, name: Option<String>, role: Option<String>) -> bool {
    &&& field_of(u, "name"@) == Some(opt_str_model(opt_view(name)))
    &&& field_of(u, "role"@) == Some(opt_str_model(opt_view(role)))
}

/// The update reports status `status` with summary `summary`.
pub open spec fn reports(u: Json, status: Seq<char>, summary: Seq<char>) -> bool {
    &&& field_of(u, "status"@) == Some(Json::Str(status))
    &&& field_of(u, "summary"@) == Some(Json::Str(summary))
}

/// The update is stamped as completed at `ms`, with no start time.
pub open spec fn completed_at(u: Json, ms: i64) -> bool {
    &&& field_of(u, "completed_at_ms"@) == Some(Json::Number(NumberModel::Int(ms as int)))
    &&& field_of(u, "started_at_ms"@) is None
}

/// The update is stamped as started at `ms`, with no completion time.
pub open spec fn started_at(u: Json, ms: i64) -> bool {
    &&& field_of(u, "started_at_ms"@) == Some(Json::Number(NumberModel::Int(ms as int)))
    &&& field_of(u, "completed_at_ms"@) is None
}

/// A finished spawn with a new thread gives one update about the new thread,
/// sent by the spawning thread, with the agent's status, "Spawned", and the
/// spawn's prompt, model, effort and completion time; without a new thread
/// there is no update.
pub proof fn lemma_spawn_end_update(e: CollabAgentSpawnEndEvent)
    ensures
        ({
            let u = subagent_updates_spec(EventMsg::CollabAgentSpawnEnd(e));
            match e.new_thread_id {
                Some(t) => {
                    &&& u.len() == 1
                    &&& about_thread(u[0], t@, e.sender_thread_id@)
                    &&& names_agent(u[0], e.new_agent_nickname, e.new_agent_role)
                    &&& reports(u[0], status_label(e.status), "Spawned"@)
                    &&& field_of(u[0], "prompt"@) == Some(Json::Str(e.prompt@))
                    &&& field_of(u[0], "model"@) == Some(Json::Str(e.model@))
                    &&& field_of(u[0], "reasoning_effort"@) == Some(Json::Str(e.reasoning_effort@))
                    &&& completed_at(u[0], e.completed_at_ms)
                },
                None => u.len() == 0,
            }
        }),
{
    broadcast use lemma_lookup_push, lemma_lookup_empty;

    lemma_update_keys();
}

/// A started interaction gives one update about the receiving thread, sent by
/// the sender: running, "Working", with the prompt and start time.
pub proof fn lemma_interaction_begin_update(e: CollabAgentInteractionBeginEvent)
    ensures
        ({
            let u = subagent_updates_spec(EventMsg::CollabAgentInteractionBegin(e));
            &&& u.len() == 1
            &&& about_thread(u[0], e.receiver_thread_id@, e.sender_thread_id@)
            &&& reports(u[0], "running"@, "Working"@)
            &&& field_of(u[0], "prompt"@) == Some(Json::Str(e.prompt@))
            &&& started_at(u[0], e.started_at_ms)
        }),
{
    broadcast use lemma_lookup_push, lemma_lookup_empty;

    lemma_update_keys();
}

/// A finished interaction gives one update about the receiving thread, sent
/// by the sender: the receiver's own status (so a completed reply shows as
/// completed), "Responded", its name and role, the prompt and completion time.
pub proof fn lemma_interaction_end_update(e: CollabAgentInteractionEndEvent)
    ensures
        ({
            let u = subagent_updates_spec(EventMsg::CollabAgentInteractionEnd(e));
            &&& u.len() == 1
            &&& about_thread(u[0], e.receiver_thread_id@, e.sender_thread_id@)
            &&& names_agent(u[0], e.receiver_agent_nickname, e.receiver_agent_role)
            &&& reports(u[0], status_label(e.status), "Responded"@)
            &&& field_of(u[0], "prompt"@) == Some(Json::Str(e.prompt@))
            &&& completed_at(u[0], e.completed_at_ms)
        }),
{
    broadcast use lemma_lookup_push, lemma_lookup_empty;

    lemma_update_keys();
}

/// Waiting gives one running "Waiting" update per awaited agent (with its name
/// and role), or, when no agents are listed, per awaited thread; each is sent
/// by the waiting thread and stamped with the start time.
pub proof fn lemma_waiting_begin_updates(e: CollabWaitingBeginEvent)
    ensures
        ({
            let u = subagent_updates_spec(EventMsg::CollabWaitingBegin(e));
            if e.receiver_agents@.len() == 0 {
                &&& u.len() == e.receiver_thread_ids@.len()
                &&& forall|i: int|
                    0 <= i < u.len() ==> {
                        &&& about_thread(#[trigger] u[i], e.receiver_thread_ids@[i]@, e.sender_thread_id@)
                        &&& reports(u[i], "running"@, "Waiting"@)
                        &&& started_at(u[i], e.started_at_ms)
                        &&& field_of(u[i], "name"@) is None
                    }
            } else {
                &&& u.len() == e.receiver_agents@.len()
                &&& forall|i: int|
                    0 <= i < u.len() ==> {
                        &&& about_thread(#[trigger] u[i], e.receiver_agents@[i].thread_id@, e.sender_thread_id@)
                        &&& names_agent(u[i], e.receiver_agents@[i].agent_nickname, e.receiver_agents@[i].agent_role)
                        &&& reports(u[i], "running"@, "Waiting"@)
                        &&& started_at(u[i], e.started_at_ms)
                    }
            }
        }),
{
    broadcast use lemma_lookup_push, lemma_lookup_empty;

    lemma_update_keys();
}

/// A finished wait gives one "Wait finished" update per agent status entry
/// (with name and role), or, when there are none, per reported thread status;
/// each carries that agent's own status and the completion time.
pub proof fn lemma_waiting_end_updates(e: CollabWaitingEndEvent)
    ensures
        ({
            let u = subagent_updates_spec(EventMsg::CollabWaitingEnd(e));
            if e.agent_statuses@.len() == 0 {
                &&& u.len() == e.statuses@.len()
                &&& forall|i: int|
                    0 <= i < u.len() ==> {
                        &&& about_thread(#[trigger] u[i], e.statuses@[i].0@, e.sender_thread_id@)
                        &&& reports(u[i], status_label(e.statuses@[i].1), "Wait finished"@)
                        &&& completed_at(u[i], e.completed_at_ms)
                        &&& field_of(u[i], "name"@) is None
                    }
            } else {
                &&& u.len() == e.agent_statuses@.len()
                &&& forall|i: int|
                    0 <= i < u.len() ==> {
                        &&& about_thread(#[trigger] u[i], e.agent_statuses@[i].thread_id@, e.sender_thread_id@)
                        &&& names_agent(u[i], e.agent_statuses@[i].agent_nickname, e.agent_statuses@[i].agent_role)
                        &&& reports(u[i], status_label(e.agent_statuses@[i].status), "Wait finished"@)
                        &&& completed_at(u[i], e.completed_at_ms)
                    }
            }
        }),
{
    broadcast use lemma_lookup_push, lemma_lookup_empty;

    lemma_update_keys();
}

/// Resuming gives one running "Resuming" update; a finished resume gives one
/// "Resumed" update with the agent's own status. Both are about the receiving
/// thread, sent by the sender, with the receiver's name and role.
pub proof fn lemma_resume_updates(b: CollabResumeBeginEvent, e: CollabResumeEndEvent)
    ensures
        ({
            let u = subagent_updates_spec(EventMsg::CollabResumeBegin(b));
            &&& u.len() == 1
            &&& about_thread(u[0], b.receiver_thread_id@, b.sender_thread_id@)
            &&& names_agent(u[0], b.receiver_agent_nickname, b.receiver_agent_role)
            &&& reports(u[0], "running"@, "Resuming"@)
            &&& started_at(u[0], b.started_at_ms)
        }),
        ({
            let u = subagent_updates_spec(EventMsg::CollabResumeEnd(e));
            &&& u.len() == 1
            &&& about_thread(u[0], e.receiver_thread_id@, e.sender_thread_id@)
            &&& names_agent(u[0], e.receiver_agent_nickname, e.receiver_agent_role)
            &&& reports(u[0], status_label(e.status), "Resumed"@)
            &&& completed_at(u[0], e.completed_at_ms)
        }),
{
    broadcast use lemma_lookup_push, lemma_lookup_empty;

    lemma_update_keys();
}

/// Closing gives one running "Closing" update; a finished close gives one
/// "Closed" update whose status is "closed" whatever the agent reported.
pub proof fn lemma_close_updates(b: CollabCloseBeginEvent, e: CollabCloseEndEvent)
    ensures
        ({
            let u = subagent_updates_spec(EventMsg::CollabCloseBegin(b));
            &&& u.len() == 1
            &&& about_thread(u[0], b.receiver_thread_id@, b.sender_thread_id@)
            &&& reports(u[0], "running"@, "Closing"@)
            &&& started_at(u[0], b.started_at_ms)
        }),
        ({
            let u = subagent_updates_spec(EventMsg::CollabCloseEnd(e));
            &&& u.len() == 1
            &&& about_thread(u[0], e.receiver_thread_id@, e.sender_thread_id@)
            &&& names_agent(u[0], e.receiver_agent_nickname, e.receiver_agent_role)
            &&& reports(u[0], "closed"@, "Closed"@)
            &&& completed_at(u[0], e.completed_at_ms)
        }),
{
    broadcast use lemma_lookup_push, lemma_lookup_empty;

    lemma_update_keys();
}

/// Sub-agent activity gives one update identified by the agent's path, about
/// its thread, named (and tasked) by the path's name: a start is running and
/// "Spawned", an interaction running and "Working", both stamped as started;
/// an interruption is cancelled and "Interrupted", stamped as completed.
pub proof fn lemma_activity_update(e: SubAgentActivityEvent)
    ensures
        ({
            let u = subagent_updates_spec(EventMsg::SubAgentActivity(e));
            &&& u.len() == 1
            &&& field_of(u[0], "provider"@) == Some(Json::Str("codex"@))
            &&& field_of(u[0], "id"@) == Some(Json::Str(e.agent_path.path@))
            &&& field_of(u[0], "thread_id"@) == Some(Json::Str(e.agent_thread_id@))
            &&& field_of(u[0], "name"@) == Some(Json::Str(e.agent_path.name@))
            &&& field_of(u[0], "task"@) == Some(Json::Str(e.agent_path.name@))
            &&& field_of(u[0], "parent_id"@) is None
            &&& match e.kind {
                SubAgentActivityKind::Started => reports(u[0], "running"@, "Spawned"@)
                    && started_at(u[0], e.occurred_at_ms),
                SubAgentActivityKind::Interacted => reports(u[0], "running"@, "Working"@)
                    && started_at(u[0], e.occurred_at_ms),
                SubAgentActivityKind::Interrupted => reports(u[0], "cancelled"@, "Interrupted"@)
                    && completed_at(u[0], e.occurred_at_ms),
            }
        }),
{
    broadcast use lemma_lookup_push, lemma_lookup_empty;

    lemma_update_keys();
}

/// A final answer from a sub-agent to its direct parent (the author's path
/// minus its last, non-empty segment is the recipient, and the text starts
/// with the final-answer marker) gives one completed update identified by the
/// author's path and named by its last segment; any other agent message gives
/// none.
pub proof fn lemma_completion_updates(
    id: Option<String>,
    author: String,
    recipient: String,
    plaintext: Option<String>,
)
    ensures
        ({
            let u = subagent_updates_spec(
                EventMsg::RawResponseItem(
                    RawResponseItemEvent {
                        item: ResponseItem::AgentMessage {
                            id,
                            author,
                            recipient,
                            plaintext_content: plaintext,
                        },
                    },
                ),
            );
            let k = rfind_spec(author@, '/');
            let is_final = k >= 0 && author@.skip(k + 1).len() > 0 && author@.take(k) == recipient@
                && (plaintext matches Some(t) && "Message Type: FINAL_ANSWER\n"@.is_prefix_of(t@));
            if is_final {
                &&& u.len() == 1
                &&& field_of(u[0], "provider"@) == Some(Json::Str("codex"@))
                &&& field_of(u[0], "id"@) == Some(Json::Str(author@))
                &&& field_of(u[0], "name"@) == Some(Json::Str(author@.skip(k + 1)))
                &&& reports(u[0], "completed"@, "Completed"@)
            } else {
                u.len() == 0
            }
        }),
{
    broadcast use lemma_lookup_push, lemma_lookup_empty;

    lemma_update_keys();
}

/// Every sub-agent update names this back end as its provider: its first
/// entry is `"provider": "codex"`, so reading `provider` gives `"codex"`.
pub proof fn lemma_updates_name_codex_provider(event: EventMsg)
    ensures
        forall|i: int|
            0 <= i < subagent_updates_spec(event).len() ==> field_of(
                #[trigger] subagent_updates_spec(event)[i],
                "provider"@,
            ) == Some(str_j("codex"@)),
{
    let updates = subagent_updates_spec(event);
    assert forall|i: int| 0 <= i < updates.len() implies field_of(
        #[trigger] updates[i],
        "provider"@,
    ) == Some(str_j("codex"@)) by {
        let u = updates[i];
        let entries = u->Object_0;
        assert(u is Object);
        assert(entries.len() > 0);
        assert(entries[0] == ("provider"@, str_j("codex"@)));
    }
}

/// The label the front end shows for an agent status.
pub fn codex_agent_status(status: &AgentStatus) -> (r: &'static str)
    ensures
        r@ == status_label(*status),
{
    match status {
        AgentStatus::PendingInit => "starting",
        AgentStatus::Running => "running",
        AgentStatus::Interrupted => "interrupted",
        AgentStatus::Completed(_) => "completed",
        AgentStatus::Errored(_) => "failed",
        AgentStatus::Shutdown => "closed",
        AgentStatus::NotFound => "not_found",
    }
}

fn head(id: &str, parent: &str) -> (r: Vec<(String, JsonValue)>)
    ensures
        entries_model(r@) == head_spec(id@, parent@),
{
    let mut e: Vec<(String, JsonValue)> = Vec::new();
    push_field(&mut e, "provider", str_value("codex"));
    push_field(&mut e, "id", str_value(id));
    push_field(&mut e, "thread_id", str_value(id));
    push_field(&mut e, "parent_id", str_value(parent));
    e
}

fn named_head(id: &str, parent: &str, name: &Option<String>, role: &Option<String>) -> (r: Vec<
    (String, JsonValue),
>)
    ensures
        entries_model(r@) == named_head_spec(id@, parent@, *name, *role),
{
    let mut e = head(id, parent);
    push_field(&mut e, "name", opt_str_value(name));
    push_field(&mut e, "role", opt_str_value(role));
    e
}

fn push_str_field(entries: &mut Vec<(String, JsonValue)>, key: &str, value: &str)
    ensures
        entries_model(final(entries)@) == entries_model(old(entries)@).push((key@, str_j(value@))),
{
    push_field(entries, key, str_value(value));
}

fn push_int_field(entries: &mut Vec<(String, JsonValue)>, key: &str, value: i64)
    ensures
        entries_model(final(entries)@) == entries_model(old(entries)@).push((key@, int_j(value))),
{
    push_field(entries, key, int_value(value));
}

fn spawn_end(e: &CollabAgentSpawnEndEvent, id: &str) -> (r: JsonValue)
    ensures
        r@ == spawn_end_update(*e, id@),
{
    let mut f = named_head(id, e.sender_thread_id.as_str(), &e.new_agent_nickname, &e.new_agent_role);
    push_str_field(&mut f, "status", codex_agent_status(&e.status));
    push_str_field(&mut f, "summary", "Spawned");
    push_str_field(&mut f, "prompt", e.prompt.as_str());
    push_str_field(&mut f, "model", e.model.as_str());
    push_str_field(&mut f, "reasoning_effort", e.reasoning_effort.as_str());
    push_int_field(&mut f, "completed_at_ms", e.completed_at_ms);
    object(f)
}

fn interaction_begin(e: &CollabAgentInteractionBeginEvent) -> (r: JsonValue)
    ensures
        r@ == interaction_begin_update(*e),
{
    let mut f = head(e.receiver_thread_id.as_str(), e.sender_thread_id.as_str());
    push_str_field(&mut f, "status", "running");
    push_str_field(&mut f, "summary", "Working");
    push_str_field(&mut f, "prompt", e.prompt.as_str());
    push_int_field(&mut f, "started_at_ms", e.started_at_ms);
    object(f)
}

fn interaction_end(e: &CollabAgentInteractionEndEvent) -> (r: JsonValue)
    ensures
        r@ == interaction_end_update(*e),
{
    let mut f = named_head(
        e.receiver_thread_id.as_str(),
        e.sender_thread_id.as_str(),
        &e.receiver_agent_nickname,
        &e.receiver_agent_role,
    );
    push_str_field(&mut f, "status", codex_agent_status(&e.status));
    push_str_field(&mut f, "summary", "Responded");
    push_str_field(&mut f, "prompt", e.prompt.as_str());
    push_int_field(&mut f, "completed_at_ms", e.completed_at_ms);
    object(f)
}

fn waiting_begin(e: &CollabWaitingBeginEvent) -> (r: Vec<JsonValue>)
    ensures
        items_model(r@) == waiting_begin_updates(*e),
{
    let mut out: Vec<JsonValue> = Vec::new();
    let parent = e.sender_thread_id.as_str();
    if e.receiver_agents.len() == 0 {
        let n = e.receiver_thread_ids.len();
        let mut i: usize = 0;
        while i < n
            invariant
                n == e.receiver_thread_ids@.len(),
                parent@ == e.sender_thread_id@,
                i <= n,
                items_model(out@) == Seq::new(
                    i as nat,
                    |k: int|
                        waiting_id_update(
                            e.receiver_thread_ids@[k]@,
                            e.sender_thread_id@,
                            e.started_at_ms,
                        ),
                ),
            decreases n - i,
        {
            let id = e.receiver_thread_ids[i].as_str();
            let mut f = head(id, parent);
            push_str_field(&mut f, "status", "running");
            push_str_field(&mut f, "summary", "Waiting");
            push_int_field(&mut f, "started_at_ms", e.started_at_ms);
            push_item(&mut out, object(f));
            i = i + 1;
            assert(items_model(out@) =~= Seq::new(
                i as nat,
                |k: int|
                    waiting_id_update(e.receiver_thread_ids@[k]@, e.sender_thread_id@, e.started_at_ms),
            ));
        }
    } else {
        let n = e.receiver_agents.len();
        let mut i: usize = 0;
        while i < n
            invariant
                n == e.receiver_agents@.len(),
                n > 0,
                parent@ == e.sender_thread_id@,
                i <= n,
                items_model(out@) == Seq::new(
                    i as nat,
                    |k: int|
                        waiting_agent_update(e.receiver_agents@[k], e.sender_thread_id@, e.started_at_ms),
                ),
            decreases n - i,
        {
            let a = &e.receiver_agents[i];
            let mut f = named_head(a.thread_id.as_str(), parent, &a.agent_nickname, &a.agent_role);
            push_str_field(&mut f, "status", "running");
            push_str_field(&mut f, "summary", "Waiting");
            push_int_field(&mut f, "started_at_ms", e.started_at_ms);
            push_item(&mut out, object(f));
            i = i + 1;
            assert(items_model(out@) =~= Seq::new(
                i as nat,
                |k: int| waiting_agent_update(e.receiver_agents@[k], e.sender_thread_id@, e.started_at_ms),
            ));
        }
    }
    out
}

fn waiting_end(e: &CollabWaitingEndEvent) -> (r: Vec<JsonValue>)
    ensures
        items_model(r@) == waiting_end_updates(*e),
{
    let mut out: Vec<JsonValue> = Vec::new();
    let parent = e.sender_thread_id.as_str();
    if e.agent_statuses.len() == 0 {
        let n = e.statuses.len();
        let mut i: usize = 0;
        while i < n
            invariant
                n == e.statuses@.len(),
                parent@ == e.sender_thread_id@,
                i <= n,
                items_model(out@) == Seq::new(
                    i as nat,
                    |k: int|
                        waiting_status_update(
                            e.statuses@[k].0@,
                            e.statuses@[k].1,
                            e.sender_thread_id@,
                            e.completed_at_ms,
                        ),
                ),
            decreases n - i,
        {
            let entry = &e.statuses[i];
            let mut f = head(entry.0.as_str(), parent);
            push_str_field(&mut f, "status", codex_agent_status(&entry.1));
            push_str_field(&mut f, "summary", "Wait finished");
            push_int_field(&mut f, "completed_at_ms", e.completed_at_ms);
            push_item(&mut out, object(f));
            i = i + 1;
            assert(items_model(out@) =~= Seq::new(
                i as nat,
                |k: int|
                    waiting_status_update(
                        e.statuses@[k].0@,
                        e.statuses@[k].1,
                        e.sender_thread_id@,
                        e.completed_at_ms,
                    ),
            ));
        }
    } else {
        let n = e.agent_statuses.len();
        let mut i: usize = 0;
        while i < n
            invariant
                n == e.agent_statuses@.len(),
                n > 0,
                parent@ == e.sender_thread_id@,
                i <= n,
                items_model(out@) == Seq::new(
                    i as nat,
                    |k: int|
                        waiting_entry_update(e.agent_statuses@[k], e.sender_thread_id@, e.completed_at_ms),
                ),
            decreases n - i,
        {
            let a = &e.agent_statuses[i];
            let mut f = named_head(a.thread_id.as_str(), parent, &a.agent_nickname, &a.agent_role);
            push_str_field(&mut f, "status", codex_agent_status(&a.status));
            push_str_field(&mut f, "summary", "Wait finished");
            push_int_field(&mut f, "completed_at_ms", e.completed_at_ms);
            push_item(&mut out, object(f));
            i = i + 1;
            assert(items_model(out@) =~= Seq::new(
                i as nat,
                |k: int| waiting_entry_update(e.agent_statuses@[k], e.sender_thread_id@, e.completed_at_ms),
            ));
        }
    }
    out
}

fn resume_begin(e: &CollabResumeBeginEvent) -> (r: JsonValue)
    ensures
        r@ == resume_begin_update(*e),
{
    let mut f = named_head(
        e.receiver_thread_id.as_str(),
        e.sender_thread_id.as_str(),
        &e.receiver_agent_nickname,
        &e.receiver_agent_role,
    );
    push_str_field(&mut f, "status", "running");
    push_str_field(&mut f, "summary", "Resuming");
    push_int_field(&mut f, "started_at_ms", e.started_at_ms);
    object(f)
}

fn resume_end(e: &CollabResumeEndEvent) -> (r: JsonValue)
    ensures
        r@ == resume_end_update(*e),
{
    let mut f = named_head(
        e.receiver_thread_id.as_str(),
        e.sender_thread_id.as_str(),
        &e.receiver_agent_nickname,
        &e.receiver_agent_role,
    );
    push_str_field(&mut f, "status", codex_agent_status(&e.status));
    push_str_field(&mut f, "summary", "Resumed");
    push_int_field(&mut f, "completed_at_ms", e.completed_at_ms);
    object(f)
}

fn close_begin(e: &CollabCloseBeginEvent) -> (r: JsonValue)
    ensures
        r@ == close_begin_update(*e),
{
    let mut f = head(e.receiver_thread_id.as_str(), e.sender_thread_id.as_str());
    push_str_field(&mut f, "status", "running");
    push_str_field(&mut f, "summary", "Closing");
    push_int_field(&mut f, "started_at_ms", e.started_at_ms);
    object(f)
}

fn close_end(e: &CollabCloseEndEvent) -> (r: JsonValue)
    ensures
        r@ == close_end_update(*e),
{
    let mut f = named_head(
        e.receiver_thread_id.as_str(),
        e.sender_thread_id.as_str(),
        &e.receiver_agent_nickname,
        &e.receiver_agent_role,
    );
    push_str_field(&mut f, "status", "closed");
    push_str_field(&mut f, "summary", "Closed");
    push_int_field(&mut f, "completed_at_ms", e.completed_at_ms);
    object(f)
}

fn activity(e: &SubAgentActivityEvent) -> (r: JsonValue)
    ensures
        r@ == activity_update(*e),
{
    let (status, summary) = match e.kind {
        SubAgentActivityKind::Started => ("running", "Spawned"),
        SubAgentActivityKind::Interacted => ("running", "Working"),
        SubAgentActivityKind::Interrupted => ("cancelled", "Interrupted"),
    };
    let mut f: Vec<(String, JsonValue)> = Vec::new();
    push_str_field(&mut f, "provider", "codex");
    push_str_field(&mut f, "id", e.agent_path.path.as_str());
    push_str_field(&mut f, "thread_id", e.agent_thread_id.as_str());
    push_str_field(&mut f, "name", e.agent_path.name.as_str());
    push_str_field(&mut f, "task", e.agent_path.name.as_str());
    push_str_field(&mut f, "status", status);
    push_str_field(&mut f, "summary", summary);
    let timestamp = match e.kind {
        SubAgentActivityKind::Interrupted => "completed_at_ms",
        _ => "started_at_ms",
    };
    push_int_field(&mut f, timestamp, e.occurred_at_ms);
    object(f)
}

/// Whether an agent message is a sub-agent's final answer to its direct parent.
pub fn is_v2_completion_message(author: &str, recipient: &str, plaintext: &Option<String>) -> (r:
    bool)
    ensures
        r == is_v2_completion_spec(author@, recipient@, opt_view(*plaintext)),
{
    let Some((parent, name)) = rsplit_once(author, '/') else {
        return false;
    };
    if char_len(name) == 0 || !same_text(parent, recipient) {
        return false;
    }
    match plaintext {
        Some(text) => starts_with(text.as_str(), "Message Type: FINAL_ANSWER\n"),
        None => false,
    }
}

fn completion(author: &str) -> (r: JsonValue)
    ensures
        r@ == completion_update(author@),
{
    let mut f: Vec<(String, JsonValue)> = Vec::new();
    push_str_field(&mut f, "provider", "codex");
    push_str_field(&mut f, "id", author);
    push_str_field(&mut f, "name", after_last(author, '/'));
    push_str_field(&mut f, "status", "completed");
    push_str_field(&mut f, "summary", "Completed");
    object(f)
}

fn one(v: JsonValue) -> (r: Vec<JsonValue>)
    ensures
        items_model(r@) == seq![v@],
{
    let mut out: Vec<JsonValue> = Vec::new();
    push_item(&mut out, v);
    out
}

/// The sub-agent updates that a back-end event gives rise to.
pub fn provider_subagent_updates(event: &EventMsg) -> (r: Vec<JsonValue>)
    ensures
        items_model(r@) == subagent_updates_spec(*event),
{
    match event {
        EventMsg::CollabAgentSpawnEnd(e) => match &e.new_thread_id {
            Some(t) => one(spawn_end(e, t.as_str())),
            None => Vec::new(),
        },
        EventMsg::CollabAgentInteractionBegin(e) => one(interaction_begin(e)),
        EventMsg::CollabAgentInteractionEnd(e) => one(interaction_end(e)),
        EventMsg::CollabWaitingBegin(e) => waiting_begin(e),
        EventMsg::CollabWaitingEnd(e) => waiting_end(e),
        EventMsg::CollabResumeBegin(e) => one(resume_begin(e)),
        EventMsg::CollabResumeEnd(e) => one(resume_end(e)),
        EventMsg::CollabCloseBegin(e) => one(close_begin(e)),
        EventMsg::CollabCloseEnd(e) => one(close_end(e)),
        EventMsg::SubAgentActivity(e) => one(activity(e)),
        EventMsg::RawResponseItem(e) => match &e.item {
            ResponseItem::AgentMessage { author, recipient, plaintext_content, .. } => {
                if is_v2_completion_message(author.as_str(), recipient.as_str(), plaintext_content) {
                    one(completion(author.as_str()))
                } else {
                    Vec::new()
                }
            },
            ResponseItem::Other => Vec::new(),
        },
        _ => Vec::new(),
    }
}

} // verus!
