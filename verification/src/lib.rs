//! Update checks for the Codex command-line tool: version comparison,
//! npm registry metadata, update actions and the decisions around the
//! cached "latest version" record.

pub mod text;
pub mod versions;
pub mod install;
pub mod update_action;
pub mod npm_registry;
pub mod updates;
pub mod doctor;
