//! A dependency synchronization engine: vendors selected subtrees of
//! external version-controlled repositories into a local project.  Each
//! vendored subtree is a named dependency with a source URL, a pinned
//! revision, a set of shell-glob selection patterns and a target location.
//!
//! The engine fetches each dependency's source at its revision, selects the
//! paths its patterns match, and atomically replaces the dependency's target
//! directory with the selection — guarded by the requirement that the
//! enclosing workspace be clean before anything destructive happens.
//!
//! The semantics of selection and synchronization are verified over
//! in-memory trees (`tree`, `sync`); the orchestration over real
//! collaborators goes through capability ports (`repositories`, `services`),
//! whose production implementations live outside this library.

pub mod auth;
pub mod configuration;
pub mod dto;
pub mod error;
pub mod examples;
pub mod git_output;
pub mod models;
pub mod paths;
pub mod repositories;
pub mod scratch;
pub mod selector;
pub mod services;
pub mod status;
pub mod sync;
pub mod text;
pub mod tree;
pub mod use_cases;
