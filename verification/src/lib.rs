//! Decision logic of a directory-iteration command runner: which child
//! directories are in scope, how a command is wrapped for the user's shell,
//! and how the per-directory exit codes reduce to one result.

pub mod args;
pub mod config;
pub mod executor;
pub mod pattern;
pub mod shell;
pub mod text;
pub mod traversal;
