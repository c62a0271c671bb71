//! Argument handling, OAuth callback validation and report rendering for the
//! `sync-v2` command line tool.

pub mod text;
pub mod model;
pub mod callback;
pub mod session;
pub mod token;
pub mod flags;
pub mod import_options;
pub mod auth_options;
pub mod sync_inputs;
pub mod sync_options;
pub mod credentials;
pub mod cli;
pub mod json;
pub mod auth_reports;
pub mod plan_report;
pub mod sync_reports;
pub mod fixtures;
pub mod auth_commands;
pub mod sync_commands;
pub mod import_reports;
pub mod safety;
