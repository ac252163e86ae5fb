//! Orchestration core of a terminal-multiplexer tile that creates a git
//! worktree and launches an agent program inside it.
//!
//! The library decides; the host acts. Every entry point takes plain values
//! and returns the list of host actions to perform, so that the whole
//! workflow is a verified function from state and event to state and actions.

pub mod context;
pub mod model;
pub mod path;
pub mod program;
pub mod render;
pub mod text;
pub mod workflow;
