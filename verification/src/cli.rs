//! What the command line holds once it is parsed.

use vstd::prelude::*;

verus! {

/// How results are printed.
#[derive(Clone, Copy, Debug, PartialEq, Eq)]
pub enum OutputFormat {
    /// On one line.
    Json,
    /// Indented, one member per line.
    Pretty,
}

/// One subcommand with its arguments.
#[derive(Debug, Clone, PartialEq, Eq)]
#[allow(inconsistent_fields)]
pub enum Command {
    /// A search in the logs.
    Logs {
        query: String,
        from: String,
        to: String,
        limit: u32,
        sort: String,
        cursor: Option<String>,
    },
    /// A metrics query.
    Metrics { query: String, from: String, to: String },
    /// A search in the events.
    Events { query: Option<String>, from: String, to: String, limit: u32, sort: String },
    /// Any other call of the API.
    Raw {
        method: String,
        path: String,
        /// Query parameters, each as `key=value`.
        query_params: Vec<String>,
        /// The body as JSON text.
        body: Option<String>,
        /// The path of a file that holds the body as JSON text.
        body_file: Option<String>,
    },
}

/// The command line.
#[derive(Debug, Clone, PartialEq, Eq)]
pub struct Cli {
    /// A site suffix such as `datadoghq.com`, or the base address of the API.
    pub site: Option<String>,
    pub api_key: Option<String>,
    pub app_key: Option<String>,
    /// Asks for output on one line.
    pub compact: bool,
    pub output: OutputFormat,
    pub retries: u32,
    pub retry_backoff_ms: u64,
    pub retry_max_backoff_ms: u64,
    pub retry_rate_limit: bool,
    pub timeout_seconds: u64,
    pub command: Command,
}

impl Cli {
    /// Whether output goes on one line: where `compact` is set, and for the
    /// format `Json`.
    pub open spec fn wants_compact(&self) -> bool {
        self.compact || self.output is Json
    }

    /// Whether output goes on one line.
    pub fn compact_output(&self) -> (compact: bool)
        ensures
            compact == self.wants_compact(),
    {
        self.compact || match self.output {
            OutputFormat::Json => true,
            OutputFormat::Pretty => false,
        }
    }
}

} // verus!
