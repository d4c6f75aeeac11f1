//! Decisions of the native goal support: when clearing a goal needs the goal
//! store, how the goal service's errors are reported, and which session a
//! goal event belongs to.

use vstd::prelude::*;
use crate::events::EventMsg;
use crate::json::opt_view;

verus! {

/// Errors of the goal service.
pub enum GoalServiceError {
    InvalidRequest(String),
    Internal(String),
}

/// Errors reported to the back end's callers.
pub enum CodexErr {
    InvalidRequest(String),
    Fatal(String),
}

/// What clearing a thread's goal takes: either it is settled with the given
/// answer, or the goal store must be asked to clear it.
pub enum ClearGoalStep {
    Settled(bool),
    ClearInStore,
}

/// How clearing a native goal proceeds: nothing is cleared (answer `false`)
/// while goals are disabled or the thread has no state store.
pub fn clear_native_goal_step(goals_enabled: bool, has_state_db: bool) -> (r: ClearGoalStep)
    ensures
        !goals_enabled || !has_state_db ==> r == ClearGoalStep::Settled(false),
        goals_enabled && has_state_db ==> r == ClearGoalStep::ClearInStore,
{
    if !goals_enabled {
        return ClearGoalStep::Settled(false);
    }
    if !has_state_db {
        return ClearGoalStep::Settled(false);
    }
    ClearGoalStep::ClearInStore
}

/// A goal-service error as the back end reports it: invalid requests stay
/// invalid requests, internal failures become fatal errors, with the message
/// kept.
pub fn goal_service_error(err: GoalServiceError) -> (r: CodexErr)
    ensures
        err matches GoalServiceError::InvalidRequest(m) ==> r matches CodexErr::InvalidRequest(n)
            && n@ == m@,
        err matches GoalServiceError::Internal(m) ==> r matches CodexErr::Fatal(n) && n@ == m@,
{
    match err {
        GoalServiceError::InvalidRequest(message) => CodexErr::InvalidRequest(message),
        GoalServiceError::Internal(message) => CodexErr::Fatal(message),
    }
}

/// The outcome of asking the goal store to clear a goal.
pub fn clear_in_store_result(result: Result<bool, GoalServiceError>) -> (r: Result<bool, CodexErr>)
    ensures
        result matches Ok(b) ==> r == Ok::<bool, CodexErr>(b),
        result matches Err(GoalServiceError::InvalidRequest(m)) ==> r matches Err(
            CodexErr::InvalidRequest(n),
        ) && n@ == m@,
        result matches Err(GoalServiceError::Internal(m)) ==> r matches Err(CodexErr::Fatal(n))
            && n@ == m@,
{
    match result {
        Ok(b) => Ok(b),
        Err(e) => Err(goal_service_error(e)),
    }
}

/// The session that a goal event is reported to: the session named by the
/// thread of a goal update; other events are not forwarded.
pub open spec fn goal_event_session_spec(event: EventMsg) -> Option<Seq<char>> {
    match event {
        EventMsg::ThreadGoalUpdated(e) => Some(e.thread_id@),
        _ => None,
    }
}

/// The session id that a goal event is forwarded to, if it is forwarded.
pub fn goal_event_session_id(event: &EventMsg) -> (r: Option<String>)
    ensures
        opt_view(r) == goal_event_session_spec(*event),
{
    match event {
        EventMsg::ThreadGoalUpdated(e) => Some(e.thread_id.clone()),
        _ => None,
    }
}

} // verus!
