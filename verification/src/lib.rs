//! Resolution of human references (team keys, user names, workflow state
//! names, label names) to the stable identifiers of an issue tracker, with
//! the text and table helpers of its command-line client.

pub mod api;
pub mod commands;
pub mod config;
pub mod interactive;
pub mod output;
pub mod text;
