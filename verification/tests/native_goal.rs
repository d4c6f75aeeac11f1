use codex_acp::events::{EventMsg, ThreadGoal, ThreadGoalStatus, ThreadGoalUpdatedEvent};
use codex_acp::native_goal::{
    clear_in_store_result, clear_native_goal_step, goal_event_session_id, goal_service_error,
    ClearGoalStep, CodexErr, GoalServiceError,
};

#[test]
fn clearing_needs_goals_and_a_store() {
    assert!(matches!(clear_native_goal_step(false, true), ClearGoalStep::Settled(false)));
    assert!(matches!(clear_native_goal_step(true, false), ClearGoalStep::Settled(false)));
    assert!(matches!(clear_native_goal_step(true, true), ClearGoalStep::ClearInStore));
}

#[test]
fn maps_goal_service_errors() {
    assert!(matches!(
        goal_service_error(GoalServiceError::InvalidRequest("bad".to_string())),
        CodexErr::InvalidRequest(m) if m == "bad"
    ));
    assert!(matches!(
        goal_service_error(GoalServiceError::Internal("db".to_string())),
        CodexErr::Fatal(m) if m == "db"
    ));
    assert!(matches!(clear_in_store_result(Ok(true)), Ok(true)));
    assert!(matches!(
        clear_in_store_result(Err(GoalServiceError::Internal("x".to_string()))),
        Err(CodexErr::Fatal(m)) if m == "x"
    ));
}

#[test]
fn forwards_only_goal_updates_to_their_session() {
    let event = EventMsg::ThreadGoalUpdated(ThreadGoalUpdatedEvent {
        thread_id: "thread-7".to_string(),
        goal: ThreadGoal {
            thread_id: "thread-7".to_string(),
            objective: "o".to_string(),
            status: ThreadGoalStatus::Active,
            token_budget: Some(10),
            tokens_used: 0,
            time_used_seconds: 0,
            created_at: 0,
            updated_at: 0,
        },
    });
    assert_eq!(goal_event_session_id(&event), Some("thread-7".to_string()));
    assert_eq!(goal_event_session_id(&EventMsg::Other), None);
}
