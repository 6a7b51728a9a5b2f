//! Orchestration core of a desktop assistant that drives agent subprocesses
//! speaking a JSON-based agent client protocol over standard I/O.
//!
//! The crate owns the logic between the UI and the subprocesses: the
//! publish/subscribe buses that fan events out to UI subscribers, the agent
//! process lifecycle manager, the permission request correlator, the message
//! router, the workspace/task store, and the service facade composing them.
//! Process spawning, wire I/O and rendering live outside; this crate makes
//! the decisions and hands back the actions to perform.

pub mod agents;
pub mod bus;
pub mod chat_input;
pub mod config;
pub mod errors;
pub mod events;
pub mod permissions;
pub mod services;
pub mod task_list;
pub mod tasks;
pub mod text;
pub mod tool_calls;
pub mod workspace;
