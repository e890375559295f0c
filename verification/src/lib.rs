//! Interactive Git worktree management: the verified core.
//!
//! The crate holds the decisions of a worktree manager: name and path
//! validation, worktree path placement, hook command expansion, parsing of
//! `git worktree list --porcelain` output, configuration lookup order, the
//! in-memory stand-ins for the filesystem, Git and the terminal UI, and the
//! step functions of the interactive flows.  Everything that touches the
//! terminal, the disk or a Git repository lives in the binary around it.

pub mod config;
pub mod constants;
pub mod domain;
pub mod file_copy;
pub mod filesystem;
pub mod git;
pub mod hooks;
pub mod git_interface;
pub mod git_ops;
pub mod input_esc_raw;
pub mod menu;
pub mod pathname;
pub mod sorting;
pub mod string_map;
pub mod styles;
pub mod text;
pub mod ui;
pub mod usecases;
