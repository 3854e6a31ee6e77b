//! Language-server operations for coding agents, as verified decision logic.

pub mod bridge;
pub mod changes;
pub mod clock;
pub mod code_actions;
pub mod commit_menu;
pub mod diagnostics;
pub mod edits;
pub mod json;
pub mod laws;
pub mod lease;
pub mod location;
pub mod lookups;
pub mod operations;
pub mod remote_cli;
pub mod search;
pub mod servers;
pub mod snapshot;
pub mod symbol;
pub mod text;
pub mod tools;
pub mod workspace_symbols;
