//! Back-end events, held as the plain values that the library reads.
//! Thread ids are kept as their display text.

use vstd::prelude::*;

verus! {

/// Status of a sub-agent as the back end reports it.
pub enum AgentStatus {
    PendingInit,
    Running,
    Interrupted,
    Completed(Option<String>),
    Errored(String),
    Shutdown,
    NotFound,
}

pub struct CollabAgentSpawnEndEvent {
    pub call_id: String,
    pub completed_at_ms: i64,
    pub sender_thread_id: String,
    pub new_thread_id: Option<String>,
    pub new_agent_nickname: Option<String>,
    pub new_agent_role: Option<String>,
    pub prompt: String,
    pub model: String,
    /// The reasoning effort as its debug rendering (for example `High`).
    pub reasoning_effort: String,
    pub status: AgentStatus,
}

pub struct CollabAgentInteractionBeginEvent {
    pub call_id: String,
    pub started_at_ms: i64,
    pub sender_thread_id: String,
    pub receiver_thread_id: String,
    pub prompt: String,
}

pub struct CollabAgentInteractionEndEvent {
    pub call_id: String,
    pub completed_at_ms: i64,
    pub sender_thread_id: String,
    pub receiver_thread_id: String,
    pub receiver_agent_nickname: Option<String>,
    pub receiver_agent_role: Option<String>,
    pub prompt: String,
    pub status: AgentStatus,
}

pub struct CollabAgentRef {
    pub thread_id: String,
    pub agent_nickname: Option<String>,
    pub agent_role: Option<String>,
}

pub struct CollabWaitingBeginEvent {
    pub started_at_ms: i64,
    pub sender_thread_id: String,
    pub receiver_thread_ids: Vec<String>,
    pub receiver_agents: Vec<CollabAgentRef>,
    pub call_id: String,
}

pub struct CollabAgentStatusEntry {
    pub thread_id: String,
    pub agent_nickname: Option<String>,
    pub agent_role: Option<String>,
    pub status: AgentStatus,
}

pub struct CollabWaitingEndEvent {
    pub call_id: String,
    pub completed_at_ms: i64,
    pub sender_thread_id: String,
    /// Statuses by thread, in the order in which the back end's map was walked.
    pub statuses: Vec<(String, AgentStatus)>,
    pub agent_statuses: Vec<CollabAgentStatusEntry>,
}

pub struct CollabResumeBeginEvent {
    pub call_id: String,
    pub started_at_ms: i64,
    pub sender_thread_id: String,
    pub receiver_thread_id: String,
    pub receiver_agent_nickname: Option<String>,
    pub receiver_agent_role: Option<String>,
}

pub struct CollabResumeEndEvent {
    pub call_id: String,
    pub completed_at_ms: i64,
    pub sender_thread_id: String,
    pub receiver_thread_id: String,
    pub receiver_agent_nickname: Option<String>,
    pub receiver_agent_role: Option<String>,
    pub status: AgentStatus,
}

pub struct CollabCloseBeginEvent {
    pub call_id: String,
    pub started_at_ms: i64,
    pub sender_thread_id: String,
    pub receiver_thread_id: String,
}

pub struct CollabCloseEndEvent {
    pub call_id: String,
    pub completed_at_ms: i64,
    pub sender_thread_id: String,
    pub receiver_thread_id: String,
    pub receiver_agent_nickname: Option<String>,
    pub receiver_agent_role: Option<String>,
    pub status: AgentStatus,
}

/// A path of a sub-agent in the agent tree, with the name that the back end
/// gives it.
pub struct AgentPath {
    pub path: String,
    pub name: String,
}

pub enum SubAgentActivityKind {
    Started,
    Interacted,
    Interrupted,
}

pub struct SubAgentActivityEvent {
    pub event_id: String,
    pub occurred_at_ms: i64,
    pub agent_thread_id: String,
    pub agent_path: AgentPath,
    pub kind: SubAgentActivityKind,
}

/// An item of the model's raw response.
pub enum ResponseItem {
    /// A message between agents; `plaintext_content` is the plain text that
    /// the back end extracts from the message's content, if any.
    AgentMessage {
        id: Option<String>,
        author: String,
        recipient: String,
        plaintext_content: Option<String>,
    },
    Other,
}

pub struct RawResponseItemEvent {
    pub item: ResponseItem,
}

/// Lifecycle status of a thread goal.
pub enum ThreadGoalStatus {
    Active,
    Paused,
    BudgetLimited,
    Blocked,
    UsageLimited,
    Complete,
}

pub struct ThreadGoal {
    pub thread_id: String,
    pub objective: String,
    pub status: ThreadGoalStatus,
    pub token_budget: Option<i64>,
    pub tokens_used: i64,
    pub time_used_seconds: i64,
    pub created_at: i64,
    pub updated_at: i64,
}

pub struct ThreadGoalUpdatedEvent {
    pub thread_id: String,
    pub goal: ThreadGoal,
}

/// The back-end events that the library reacts to; every other event is
/// `Other`.
pub enum EventMsg {
    CollabAgentSpawnEnd(CollabAgentSpawnEndEvent),
    CollabAgentInteractionBegin(CollabAgentInteractionBeginEvent),
    CollabAgentInteractionEnd(CollabAgentInteractionEndEvent),
    CollabWaitingBegin(CollabWaitingBeginEvent),
    CollabWaitingEnd(CollabWaitingEndEvent),
    CollabResumeBegin(CollabResumeBeginEvent),
    CollabResumeEnd(CollabResumeEndEvent),
    CollabCloseBegin(CollabCloseBeginEvent),
    CollabCloseEnd(CollabCloseEndEvent),
    SubAgentActivity(SubAgentActivityEvent),
    RawResponseItem(RawResponseItemEvent),
    ThreadGoalUpdated(ThreadGoalUpdatedEvent),
    Other,
}

} // verus!
