//! The steps of the interactive worktree flows that decide something.

pub mod delete;
pub mod rename;
pub mod switch;
pub mod list;
pub mod create;
pub mod cleanup;
pub mod edit_hooks;
pub mod create_flow;
pub mod rename_flow;
pub mod delete_flow;
