//! Query planning, retry policy and error taxonomy for a command-line client of
//! the Datadog HTTP API.

pub mod app_error;
pub mod cli;
pub mod command;
pub mod config;
pub mod datadog;
pub mod endpoint;
pub mod json;
pub mod output;
pub mod retry;
pub mod text;
pub mod time_expr;
