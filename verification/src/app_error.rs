//! The errors that a run can end with, the exit code of each, and the JSON
//! object that reports it.

use crate::datadog::DatadogError;
use crate::json::{
    empty_object, json_bool, json_model, json_null, json_string, json_unsigned, no_members,
    set_member, JsonModel,
};
use vstd::prelude::*;
use vstd::std_specs::convert::FromSpecImpl;

verus! {

/// How a run failed.
#[derive(Debug, Clone, PartialEq, Eq)]
#[allow(inconsistent_fields)]
pub enum AppError {
    /// The input was malformed; the network was not touched.
    Usage(String),
    /// The API refused the credentials.
    Auth { status: u16, message: String },
    /// The API asked to slow down.
    RateLimited { message: String, retry_after_ms: Option<u64> },
    /// A failure that may pass: the caller may run the command again.
    Upstream { status: Option<u16>, message: String },
    /// The API refused the request.
    Api { status: u16, message: String },
    /// A failure of this program that has nothing to do with the request.
    Internal(String),
}

/// An optional number as JSON: the number, or null.
pub open spec fn optional_number(number: Option<int>) -> JsonModel {
    match number {
        Some(n) => JsonModel::Int(n),
        None => JsonModel::Null,
    }
}

impl AppError {
    /// The exit code of the process: 2 for usage, 3 for authentication, 4 for
    /// rate limits, 5 for upstream failures, 6 for API errors, 1 for internal
    /// failures.
    pub open spec fn exit_code_spec(&self) -> i32 {
        match self {
            AppError::Usage(_) => 2,
            AppError::Auth { .. } => 3,
            AppError::RateLimited { .. } => 4,
            AppError::Upstream { .. } => 5,
            AppError::Api { .. } => 6,
            AppError::Internal(_) => 1,
        }
    }

    /// The name of the error's category.
    pub open spec fn category(&self) -> Seq<char> {
        match self {
            AppError::Usage(_) => "usage"@,
            AppError::Auth { .. } => "auth"@,
            AppError::RateLimited { .. } => "rate_limit"@,
            AppError::Upstream { .. } => "upstream"@,
            AppError::Api { .. } => "api"@,
            AppError::Internal(_) => "internal"@,
        }
    }

    /// Whether the caller may run the command again: so for upstream failures
    /// only.
    pub open spec fn retryable(&self) -> bool {
        self is Upstream
    }

    /// The error's message.
    pub open spec fn message(&self) -> Seq<char> {
        match self {
            AppError::Usage(message) => message@,
            AppError::Auth { message, .. } => message@,
            AppError::RateLimited { message, .. } => message@,
            AppError::Upstream { message, .. } => message@,
            AppError::Api { message, .. } => message@,
            AppError::Internal(message) => message@,
        }
    }

    /// The members of the error's report: category, exit code, message and
    /// whether the caller may retry; the status where one is known, 429 for a
    /// rate limit, null for an upstream failure without a response; and for a
    /// rate limit the delay that the API asked for, or null.
    pub open spec fn report_members(&self) -> Map<Seq<char>, JsonModel> {
        let common = no_members().insert("category"@, JsonModel::Str(self.category())).insert(
            "exit_code"@,
            JsonModel::Int(self.exit_code_spec() as int),
        ).insert("retryable"@, JsonModel::Bool(self.retryable())).insert(
            "message"@,
            JsonModel::Str(self.message()),
        );
        match self {
            AppError::Usage(_) => common,
            AppError::Auth { status, .. } => common.insert(
                "status"@,
                JsonModel::Int(*status as int),
            ),
            AppError::RateLimited { retry_after_ms, .. } => common.insert(
                "status"@,
                JsonModel::Int(429),
            ).insert(
                "retry_after_ms"@,
                optional_number(
                    match *retry_after_ms {
                        Some(delay) => Some(delay as int),
                        None => None,
                    },
                ),
            ),
            AppError::Upstream { status, .. } => common.insert(
                "status"@,
                optional_number(
                    match *status {
                        Some(code) => Some(code as int),
                        None => None,
                    },
                ),
            ),
            AppError::Api { status, .. } => common.insert("status"@, JsonModel::Int(*status as int)),
            AppError::Internal(_) => common,
        }
    }

    /// The error's report: an object whose one member, `error`, holds the
    /// members above.
    pub open spec fn report(&self) -> JsonModel {
        JsonModel::Object(no_members().insert("error"@, JsonModel::Object(self.report_members())))
    }

    /// The exit code of the process.
    pub fn exit_code(&self) -> (code: i32)
        ensures
            code == self.exit_code_spec(),
            1 <= code <= 6,
    {
        match self {
            AppError::Usage(_) => 2,
            AppError::Auth { .. } => 3,
            AppError::RateLimited { .. } => 4,
            AppError::Upstream { .. } => 5,
            AppError::Api { .. } => 6,
            AppError::Internal(_) => 1,
        }
    }

    /// The error as a JSON object.
    pub fn to_json(&self) -> (value: serde_json::Value)
        ensures
            json_model(value) == self.report(),
    {
        let mut members = empty_object();
        let (category, message, retryable): (&str, &String, bool) = match self {
            AppError::Usage(message) => ("usage", message, false),
            AppError::Auth { message, .. } => ("auth", message, false),
            AppError::RateLimited { message, .. } => ("rate_limit", message, false),
            AppError::Upstream { message, .. } => ("upstream", message, true),
            AppError::Api { message, .. } => ("api", message, false),
            AppError::Internal(message) => ("internal", message, false),
        };
        set_member(&mut members, "category", json_string(category.to_owned()));
        set_member(&mut members, "exit_code", json_unsigned(self.exit_code() as u64));
        set_member(&mut members, "retryable", json_bool(retryable));
        set_member(&mut members, "message", json_string(message.clone()));
        match self {
            AppError::Usage(_) => {},
            AppError::Auth { status, .. } => {
                set_member(&mut members, "status", json_unsigned(*status as u64));
            },
            AppError::RateLimited { retry_after_ms, .. } => {
                set_member(&mut members, "status", json_unsigned(429));
                let delay = match retry_after_ms {
                    Some(delay) => json_unsigned(*delay),
                    None => json_null(),
                };
                set_member(&mut members, "retry_after_ms", delay);
            },
            AppError::Upstream { status, .. } => {
                let code = match status {
                    Some(code) => json_unsigned(*code as u64),
                    None => json_null(),
                };
                set_member(&mut members, "status", code);
            },
            AppError::Api { status, .. } => {
                set_member(&mut members, "status", json_unsigned(*status as u64));
            },
            AppError::Internal(_) => {},
        }
        let mut value = empty_object();
        set_member(&mut value, "error", members);
        value
    }
}

impl From<DatadogError> for AppError {
    fn from(value: DatadogError) -> (error: AppError) {
        match value {
            DatadogError::InvalidRequest(message) => AppError::Usage(message),
            DatadogError::Auth { status, body } => AppError::Auth { status, message: body },
            DatadogError::RateLimited { body, retry_after_ms } => AppError::RateLimited {
                message: body,
                retry_after_ms,
            },
            DatadogError::Retryable { status, message } => AppError::Upstream { status, message },
            DatadogError::Api { status, body } => AppError::Api { status, message: body },
        }
    }
}

impl AppError {
    /// The failure of a run that a request failure stands for. Each kind has its
    /// category: a malformed request is a usage error, and a failure that may
    /// pass is an upstream failure.
    pub open spec fn of_failure(failure: DatadogError) -> AppError {
        match failure {
            DatadogError::InvalidRequest(message) => AppError::Usage(message),
            DatadogError::Auth { status, body } => AppError::Auth { status, message: body },
            DatadogError::RateLimited { body, retry_after_ms } => AppError::RateLimited {
                message: body,
                retry_after_ms,
            },
            DatadogError::Retryable { status, message } => AppError::Upstream { status, message },
            DatadogError::Api { status, body } => AppError::Api { status, message: body },
        }
    }
}

impl FromSpecImpl<DatadogError> for AppError {
    open spec fn obeys_from_spec() -> bool {
        true
    }

    open spec fn from_spec(value: DatadogError) -> AppError {
        AppError::of_failure(value)
    }
}

/// A request failure that may pass is reported as an upstream failure: with
/// exit code 5, and as the one category that the caller may retry.
pub proof fn law_retryable_failures_are_upstream(failure: DatadogError)
    requires
        failure is Retryable,
    ensures
        AppError::of_failure(failure) is Upstream,
        AppError::of_failure(failure).category() == "upstream"@,
        AppError::of_failure(failure).exit_code_spec() == 5,
        AppError::of_failure(failure).retryable(),
        AppError::of_failure(failure).message() == failure->Retryable_message@,
{
}

/// Only upstream failures are marked as worth another run, and their report
/// says so.
pub proof fn law_only_upstream_is_retryable(error: AppError)
    ensures
        error.retryable() <==> error.exit_code_spec() == 5,
        error.report_members()["retryable"@] == JsonModel::Bool(error is Upstream),
{
    reveal_strlit("retryable");
    reveal_strlit("message");
    reveal_strlit("status");
    reveal_strlit("retry_after_ms");
    assert("retryable"@ != "message"@) by {
        assert("retryable"@.len() != "message"@.len());
    }
    assert("retryable"@ != "status"@) by {
        assert("retryable"@.len() != "status"@.len());
    }
    assert("retryable"@ != "retry_after_ms"@) by {
        assert("retryable"@.len() != "retry_after_ms"@.len());
    }
}

} // verus!
