//! Verified core of a bridge between an agent-client protocol front end and a
//! coding-agent back end: session metadata handling, goal notifications,
//! sub-agent progress updates, model metadata overrides and warning filtering.

pub mod text;
pub mod json;
pub mod events;
pub mod collab_subagents;
pub mod developer_instructions;
pub mod warning_policy;
pub mod goal;
pub mod codex_extensions;
pub mod jaz_extensions;
pub mod native_goal;
pub mod model_metadata;
