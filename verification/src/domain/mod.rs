//! Validation, path placement and repository-context rules.

pub mod paths;
pub mod repo_context;
pub mod validation;
