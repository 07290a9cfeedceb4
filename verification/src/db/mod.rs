//! Rows, and what the queries over them select, change and return.

pub mod admin_views;
pub mod audit_log;
pub mod consent_tokens;
pub mod display_names;
pub mod listing;
pub mod participants;
pub mod select;
pub mod sessions;
pub mod users;
