//! What a run prints: the payload of a response, or the report of an error.

use crate::app_error::AppError;
use crate::json::{json_error_text, json_model, json_text, render_json};
use vstd::prelude::*;

verus! {

/// What is printed where the report of an error cannot be written.
pub open spec fn fallback_report() -> Seq<char> {
    "{\"error\":{\"category\":\"internal\",\"exit_code\":1,\"message\":\"Failed serializing error output\"}}"@
}

/// What is printed, and the exit code of the process.
#[derive(Debug, Clone, PartialEq, Eq)]
pub struct Report {
    pub text: String,
    pub exit_code: i32,
}

/// The text of a payload, given what writing it came to: the text, or an
/// internal error that bears the words of the failure.
pub fn written_or_internal(written: Result<String, serde_json::Error>) -> (text: Result<
    String,
    AppError,
>)
    ensures
        match written {
            Ok(found) => text == Ok::<String, AppError>(found),
            Err(_) => text matches Err(error) && error is Internal,
        },
{
    match written {
        Ok(found) => Ok(found),
        Err(failure) => Err(AppError::Internal(json_error_text(&failure))),
    }
}

/// Writes the payload of a response: on one line where `compact` is set,
/// pretty-printed otherwise. A payload that cannot be written is an internal
/// error.
pub fn render_output(value: &serde_json::Value, compact: bool) -> (text: Result<String, AppError>)
    ensures
        match json_text(json_model(*value), compact) {
            Some(expected) => text matches Ok(found) && found@ == expected,
            None => text matches Err(error) && error is Internal,
        },
{
    written_or_internal(render_json(value, compact))
}

/// The report of an error with the exit code `exit_code`, given what writing
/// the report came to: the text with that code, or the fallback with code 1.
pub fn report_or_fallback(written: Result<String, serde_json::Error>, exit_code: i32) -> (report:
    Report)
    ensures
        match written {
            Ok(found) => report.text == found && report.exit_code == exit_code,
            Err(_) => report.text@ == fallback_report() && report.exit_code == 1,
        },
{
    match written {
        Ok(found) => Report { text: found, exit_code },
        Err(_) => Report {
            text: "{\"error\":{\"category\":\"internal\",\"exit_code\":1,\"message\":\"Failed serializing error output\"}}".to_owned(),
            exit_code: 1,
        },
    }
}

/// The report of an error and the exit code of the run: the error as JSON with
/// its own exit code, or, where that cannot be written, the fallback with
/// code 1.
pub fn report_failure(error: &AppError, compact: bool) -> (report: Report)
    ensures
        match json_text(error.report(), compact) {
            Some(expected) => report.text@ == expected && report.exit_code
                == error.exit_code_spec(),
            None => report.text@ == fallback_report() && report.exit_code == 1,
        },
{
    let value = error.to_json();
    report_or_fallback(render_json(&value, compact), error.exit_code())
}

} // verus!
