//! Turns a GitHub activity feed into the short text document shown in a gist:
//! events are classified, rendered as one line each, shortened, and joined.
pub mod config;
pub mod event;
pub mod format;
pub mod pipeline;
pub mod truncate;
