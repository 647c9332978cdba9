//! From a subcommand to the request that it asks for.
//!
//! Nothing here touches the network or a file. Where the body of a raw request
//! lies in a file, [`plan`] says so, and [`plan_with_body_file`] goes on with
//! what the caller has read.

use crate::app_error::AppError;
use crate::cli::{Cli, Command};
use crate::config::{config_of, Config, Environment};
use crate::datadog::{
    body_model, events_params, invalid_sort_text, logs_body, metrics_params, sort_field,
    DatadogClient, DatadogError, LogicalRequest, LogicalRequestView, LogsQuery,
};
use crate::endpoint::is_method_token;
use crate::json::{json_model, json_parse, parse_json};
use crate::text::{chars_of, join3, string_of};
use crate::time_expr::{parse_to_unix, time_to_unix, TimeError};
use vstd::prelude::*;

verus! {

/// Whether `error` is a usage error with the message `text`.
pub open spec fn is_usage(error: AppError, text: Seq<char>) -> bool {
    error matches AppError::Usage(message) && message@ == text
}

/// The number of characters of `pair` before its first `=`, or its length where
/// it holds none.
pub open spec fn key_len(pair: Seq<char>) -> int
    decreases pair.len(),
{
    if pair.len() == 0 || pair[0] == '=' {
        0
    } else {
        1 + key_len(pair.drop_first())
    }
}

/// The key and the value of a query parameter given as `key=value`: what stands
/// before the first `=`, and what stands behind it. A parameter without `=` or
/// without a key is refused, with the message given.
pub open spec fn query_param_of(pair: Seq<char>) -> Result<(Seq<char>, Seq<char>), Seq<char>> {
    let split = key_len(pair);
    if split >= pair.len() {
        Err("Invalid query param `"@ + pair + "`. Expected key=value."@)
    } else if split == 0 {
        Err("Query param key cannot be empty in `"@ + pair + "`."@)
    } else {
        Ok((pair.subrange(0, split), pair.subrange(split + 1, pair.len() as int)))
    }
}

/// The keys and values of query parameters, in their order, or the message for
/// the first parameter that is refused.
pub open spec fn query_params_of(params: Seq<Seq<char>>) -> Result<
    Seq<(Seq<char>, Seq<char>)>,
    Seq<char>,
>
    decreases params.len(),
{
    if params.len() == 0 {
        Ok(Seq::empty())
    } else {
        match query_params_of(params.drop_last()) {
            Err(message) => Err(message),
            Ok(pairs) => match query_param_of(params.last()) {
                Ok(pair) => Ok(pairs.push(pair)),
                Err(message) => Err(message),
            },
        }
    }
}

/// The key ends at the first `=`: where no `=` stands before position `i`, and
/// one stands there or `pair` ends there, the key is `i` characters long.
proof fn lemma_key_len_is(pair: Seq<char>, i: int)
    requires
        0 <= i <= pair.len(),
        forall|k: int| 0 <= k < i ==> pair[k] != '=',
        i < pair.len() ==> pair[i] == '=',
    ensures
        key_len(pair) == i,
    decreases pair.len(),
{
    if i > 0 {
        let rest = pair.drop_first();
        assert forall|k: int| 0 <= k < i - 1 implies rest[k] != '=' by {
            assert(rest[k] == pair[k + 1]);
        }
        lemma_key_len_is(rest, i - 1);
    }
}

/// A refusal among the first parameters is the refusal of them all.
proof fn lemma_first_refusal_stands(params: Seq<Seq<char>>, i: int)
    requires
        0 <= i <= params.len(),
        query_params_of(params.subrange(0, i)) is Err,
    ensures
        query_params_of(params) == query_params_of(params.subrange(0, i)),
    decreases params.len() - i,
{
    if i < params.len() {
        assert(params.subrange(0, i + 1).drop_last() =~= params.subrange(0, i));
        lemma_first_refusal_stands(params, i + 1);
    } else {
        assert(params.subrange(0, i) =~= params);
    }
}

/// Splits one query parameter into its key and its value.
pub fn parse_query_param(pair: &str) -> (parsed: Result<(String, String), AppError>)
    ensures
        match query_param_of(pair@) {
            Ok(expected) => parsed matches Ok(found) && found.0@ == expected.0 && found.1@
                == expected.1,
            Err(message) => parsed matches Err(error) && is_usage(error, message),
        },
{
    let chars = chars_of(pair);
    let mut split: usize = 0;
    while split < chars.len() && chars[split] != '='
        invariant
            split <= chars.len(),
            forall|k: int| 0 <= k < split ==> chars@[k] != '=',
        decreases chars.len() - split,
    {
        split += 1;
    }
    proof {
        lemma_key_len_is(chars@, split as int);
    }
    if split >= chars.len() {
        Err(AppError::Usage(join3("Invalid query param `", pair, "`. Expected key=value.")))
    } else if split == 0 {
        Err(AppError::Usage(join3("Query param key cannot be empty in `", pair, "`.")))
    } else {
        Ok((string_of(&chars, 0, split), string_of(&chars, split + 1, chars.len())))
    }
}

/// The texts of command-line arguments.
pub open spec fn texts(params: Seq<String>) -> Seq<Seq<char>> {
    Seq::new(params.len(), |i: int| params[i]@)
}

/// Splits query parameters, each given as `key=value`, into keys and values.
pub fn parse_query_params(params: &Vec<String>) -> (parsed: Result<Vec<(String, String)>, AppError>)
    ensures
        match query_params_of(texts(params@)) {
            Ok(expected) => parsed matches Ok(found) && found.deep_view() == expected,
            Err(message) => parsed matches Err(error) && is_usage(error, message),
        },
{
    let ghost all = texts(params@);
    let mut pairs: Vec<(String, String)> = Vec::new();
    let mut i: usize = 0;
    assert(all.subrange(0, 0) =~= Seq::empty());
    assert(pairs.deep_view() =~= Seq::empty());
    while i < params.len()
        invariant
            i <= params.len(),
            all == texts(params@),
            query_params_of(all.subrange(0, i as int)) == Ok::<
                Seq<(Seq<char>, Seq<char>)>,
                Seq<char>,
            >(pairs.deep_view()),
        decreases params.len() - i,
    {
        proof {
            let next = all.subrange(0, i + 1);
            assert(next.drop_last() =~= all.subrange(0, i as int));
            assert(next.last() == params@[i as int]@);
        }
        let ghost before = pairs.deep_view();
        match parse_query_param(params[i].as_str()) {
            Ok(pair) => {
                let ghost pair_view = (pair.0@, pair.1@);
                pairs.push(pair);
                assert(pairs.deep_view() =~= before.push(pair_view));
            },
            Err(error) => {
                proof {
                    lemma_first_refusal_stands(all, i + 1);
                }
                return Err(error);
            },
        }
        i += 1;
    }
    assert(all.subrange(0, i as int) =~= all);
    Ok(pairs)
}

/// Where the body of a raw request comes from.
#[derive(Debug, PartialEq, Eq)]
pub enum RawBody {
    /// The request has no body.
    Absent,
    /// The body was given on the command line.
    Json(serde_json::Value),
    /// The body lies in the file of this path, which is still to be read.
    File(String),
}

/// A parsed body, or a usage error with `message` where parsing failed.
pub fn parsed_or_usage(parsed: Option<serde_json::Value>, message: String) -> (body: Result<
    serde_json::Value,
    AppError,
>)
    ensures
        match parsed {
            Some(value) => body == Ok::<serde_json::Value, AppError>(value),
            None => body matches Err(error) && is_usage(error, message@),
        },
{
    match parsed {
        Some(value) => Ok(value),
        None => Err(AppError::Usage(message)),
    }
}

/// Decides where the body of a raw request comes from. A body and a file
/// together are refused, and so is a body that is no JSON.
pub fn parse_raw_body(body: Option<String>, body_file: Option<String>) -> (source: Result<
    RawBody,
    AppError,
>)
    ensures
        match (body, body_file) {
            (Some(_), Some(_)) => source matches Err(error) && is_usage(
                error,
                "Provide only one of --body or --body-file for raw requests."@,
            ),
            (Some(raw), None) => match json_parse(raw@) {
                Some(document) => source matches Ok(RawBody::Json(value)) && json_model(value)
                    == document,
                None => source matches Err(error) && is_usage(
                    error,
                    "Invalid JSON passed to --body for raw request."@,
                ),
            },
            (None, Some(path)) => source matches Ok(RawBody::File(file)) && file@ == path@,
            (None, None) => source matches Ok(RawBody::Absent),
        },
{
    match (body, body_file) {
        (Some(_), Some(_)) => Err(
            AppError::Usage(
                "Provide only one of --body or --body-file for raw requests.".to_owned(),
            ),
        ),
        (Some(raw), None) => {
            let parsed = parse_json(raw.as_str());
            match parsed_or_usage(
                parsed,
                "Invalid JSON passed to --body for raw request.".to_owned(),
            ) {
                Ok(value) => Ok(RawBody::Json(value)),
                Err(error) => Err(error),
            }
        },
        (None, Some(path)) => Ok(RawBody::File(path)),
        (None, None) => Ok(RawBody::Absent),
    }
}

/// The body that a file holds. `contents` is the text of the file, or `None`
/// where it could not be read. A file that could not be read is refused, and so
/// is one that holds no JSON.
pub fn parse_body_file(path: &str, contents: Option<String>) -> (body: Result<
    serde_json::Value,
    AppError,
>)
    ensures
        match contents {
            None => body matches Err(error) && is_usage(
                error,
                "Failed reading raw body file `"@ + path@ + "`"@,
            ),
            Some(text) => match json_parse(text@) {
                Some(document) => body matches Ok(value) && json_model(value) == document,
                None => body matches Err(error) && is_usage(
                    error,
                    "Invalid JSON in raw body file `"@ + path@ + "`"@,
                ),
            },
        },
{
    match contents {
        None => Err(AppError::Usage(join3("Failed reading raw body file `", path, "`"))),
        Some(text) => {
            let parsed = parse_json(text.as_str());
            parsed_or_usage(parsed, join3("Invalid JSON in raw body file `", path, "`"))
        },
    }
}

/// The window of a metrics query, in seconds since 1970, or the first thing that
/// is wrong with it: a start that names no point in time, an end that names
/// none, or an end that does not lie after the start.
pub open spec fn window_of(from: Seq<char>, to: Seq<char>, now: i64) -> Result<
    (i64, i64),
    Seq<char>,
> {
    match time_to_unix(from, now) {
        Err(error) => Err(error.text()),
        Ok(start) => match time_to_unix(to, now) {
            Err(error) => Err(error.text()),
            Ok(end) => if end <= start {
                Err("Invalid metrics time window: `to` must be greater than `from`."@)
            } else {
                Ok((start, end))
            },
        },
    }
}

/// A usage error with the words of `error`.
fn time_usage(error: TimeError) -> (usage: AppError)
    ensures
        is_usage(usage, error@.text()),
{
    AppError::Usage(error.message())
}

/// The window of a metrics query, in seconds since 1970, where `now` is the
/// present.
pub fn metrics_window(from: &str, to: &str, now: i64) -> (window: Result<(i64, i64), AppError>)
    ensures
        match window_of(from@, to@, now) {
            Ok(expected) => window == Ok::<(i64, i64), AppError>(expected),
            Err(message) => window matches Err(error) && is_usage(error, message),
        },
{
    let start = match parse_to_unix(from, now) {
        Ok(start) => start,
        Err(error) => {
            return Err(time_usage(error));
        },
    };
    let end = match parse_to_unix(to, now) {
        Ok(end) => end,
        Err(error) => {
            return Err(time_usage(error));
        },
    };
    if end <= start {
        return Err(
            AppError::Usage(
                "Invalid metrics time window: `to` must be greater than `from`.".to_owned(),
            ),
        );
    }
    Ok((start, end))
}

/// Makes the configuration that a command line and the environment give. What
/// is wrong with them is a usage error.
pub fn configure(cli: &Cli, env: &Environment) -> (config: Result<Config, AppError>)
    ensures
        match config_of(*cli, *env) {
            Ok(view) => config matches Ok(made) && made@ == view && made.wf(),
            Err(refusal) => config matches Err(error) && is_usage(error, refusal.text()),
        },
{
    match Config::from_cli(cli, env) {
        Ok(made) => Ok(made),
        Err(refusal) => Err(AppError::Usage(refusal.message())),
    }
}

/// What a command asks the caller to do next.
#[derive(Debug, PartialEq, Eq)]
pub enum Planned {
    /// Send this request.
    Send(LogicalRequest),
    /// Read the file `file`, and go on with [`plan_with_body_file`].
    ReadBody { method: String, path: String, query: Vec<(String, String)>, file: String },
}

/// A request failure as the failure of the run.
pub fn lift(built: Result<LogicalRequest, DatadogError>) -> (planned: Result<
    LogicalRequest,
    AppError,
>)
    ensures
        match built {
            Ok(request) => planned == Ok::<LogicalRequest, AppError>(request),
            Err(error) => planned == Err::<LogicalRequest, AppError>(AppError::of_failure(error)),
        },
        match built {
            Err(DatadogError::InvalidRequest(text)) => planned matches Err(usage) && is_usage(
                usage,
                text@,
            ),
            _ => true,
        },
{
    match built {
        Ok(request) => Ok(request),
        Err(error) => Err(AppError::from(error)),
    }
}

/// What a logs search comes to.
pub open spec fn logs_planned(query: LogsQuery, planned: Result<Planned, AppError>) -> bool {
    match sort_field(query.sort@) {
        Some(field) => planned matches Ok(Planned::Send(request)) && request@ == (
        LogicalRequestView {
            method: "POST"@,
            path: "/api/v2/logs/events/search"@,
            query: Seq::empty(),
            body: Some(logs_body(query, field)),
        }),
        None => planned matches Err(error) && is_usage(
            error,
            invalid_sort_text(query.sort@, "logs"@),
        ),
    }
}

/// What a metrics query comes to.
pub open spec fn metrics_planned(
    query: Seq<char>,
    from: Seq<char>,
    to: Seq<char>,
    now: i64,
    planned: Result<Planned, AppError>,
) -> bool {
    match window_of(from, to, now) {
        Ok(window) => planned matches Ok(Planned::Send(request)) && request@ == (
        LogicalRequestView {
            method: "GET"@,
            path: "/api/v1/query"@,
            query: metrics_params(query, window.0, window.1),
            body: None,
        }),
        Err(message) => planned matches Err(error) && is_usage(error, message),
    }
}

/// What an events search comes to.
pub open spec fn events_planned(
    query: Option<String>,
    from: Seq<char>,
    to: Seq<char>,
    limit: u32,
    sort: Seq<char>,
    planned: Result<Planned, AppError>,
) -> bool {
    match sort_field(sort) {
        Some(field) => planned matches Ok(Planned::Send(request)) && request@ == (
        LogicalRequestView {
            method: "GET"@,
            path: "/api/v2/events"@,
            query: events_params(query, from, to, limit, field),
            body: None,
        }),
        None => planned matches Err(error) && is_usage(error, invalid_sort_text(sort, "events"@)),
    }
}

/// What a raw request comes to once its parameters and its body are known.
pub open spec fn raw_sent(
    method: Seq<char>,
    path: Seq<char>,
    query: Seq<(Seq<char>, Seq<char>)>,
    body: Option<serde_json::Value>,
    planned: Result<LogicalRequest, AppError>,
) -> bool {
    if is_method_token(method) {
        planned matches Ok(request) && request@ == (LogicalRequestView {
            method,
            path,
            query,
            body: body_model(body),
        })
    } else {
        planned matches Err(error) && is_usage(error, "Invalid HTTP method for raw query."@)
    }
}

/// What a raw request comes to. Its parameters are looked at first, then its
/// body, then its method.
pub open spec fn raw_planned(
    method: Seq<char>,
    path: Seq<char>,
    query_params: Seq<String>,
    body: Option<String>,
    body_file: Option<String>,
    planned: Result<Planned, AppError>,
) -> bool {
    match query_params_of(texts(query_params)) {
        Err(message) => planned matches Err(error) && is_usage(error, message),
        Ok(query) => match (body, body_file) {
            (Some(_), Some(_)) => planned matches Err(error) && is_usage(
                error,
                "Provide only one of --body or --body-file for raw requests."@,
            ),
            (Some(raw), None) => match json_parse(raw@) {
                None => planned matches Err(error) && is_usage(
                    error,
                    "Invalid JSON passed to --body for raw request."@,
                ),
                Some(document) => if is_method_token(method) {
                    planned matches Ok(Planned::Send(request)) && request@ == (LogicalRequestView {
                        method,
                        path,
                        query,
                        body: Some(document),
                    })
                } else {
                    planned matches Err(error) && is_usage(
                        error,
                        "Invalid HTTP method for raw query."@,
                    )
                },
            },
            (None, Some(file)) => planned matches Ok(
                Planned::ReadBody { method: kept_method, path: kept_path, query: kept_query, file: kept_file },
            ) && kept_method@ == method && kept_path@ == path && kept_query.deep_view() == query
                && kept_file@ == file@,
            (None, None) => if is_method_token(method) {
                planned matches Ok(Planned::Send(request)) && request@ == (LogicalRequestView {
                    method,
                    path,
                    query,
                    body: None,
                })
            } else {
                planned matches Err(error) && is_usage(error, "Invalid HTTP method for raw query."@)
            },
        },
    }
}

/// What `command` comes to, where `now` is the present in seconds since 1970.
pub open spec fn command_planned(command: Command, now: i64, planned: Result<Planned, AppError>) -> bool {
    match command {
        Command::Logs { query, from, to, limit, sort, cursor } => logs_planned(
            LogsQuery { query, from, to, limit, sort, cursor },
            planned,
        ),
        Command::Metrics { query, from, to } => metrics_planned(query@, from@, to@, now, planned),
        Command::Events { query, from, to, limit, sort } => events_planned(
            query,
            from@,
            to@,
            limit,
            sort@,
            planned,
        ),
        Command::Raw { method, path, query_params, body, body_file } => raw_planned(
            method@,
            path@,
            query_params@,
            body,
            body_file,
            planned,
        ),
    }
}

/// Makes the request of a raw call whose parameters and body are known.
pub fn plan_raw(
    client: &DatadogClient,
    method: &str,
    path: &str,
    query: Vec<(String, String)>,
    body: Option<serde_json::Value>,
) -> (planned: Result<LogicalRequest, AppError>)
    ensures
        raw_sent(method@, path@, query.deep_view(), body, planned),
{
    lift(client.raw(method, path, query, body))
}

/// Goes on with a raw request whose body lies in a file. `contents` is the text
/// of the file, or `None` where it could not be read. The body is looked at
/// before the method.
pub fn plan_with_body_file(
    client: &DatadogClient,
    method: &str,
    path: &str,
    query: Vec<(String, String)>,
    file: &str,
    contents: Option<String>,
) -> (planned: Result<LogicalRequest, AppError>)
    ensures
        match contents {
            None => planned matches Err(error) && is_usage(
                error,
                "Failed reading raw body file `"@ + file@ + "`"@,
            ),
            Some(text) => match json_parse(text@) {
                None => planned matches Err(error) && is_usage(
                    error,
                    "Invalid JSON in raw body file `"@ + file@ + "`"@,
                ),
                Some(document) => if is_method_token(method@) {
                    planned matches Ok(request) && request@ == (LogicalRequestView {
                        method: method@,
                        path: path@,
                        query: query.deep_view(),
                        body: Some(document),
                    })
                } else {
                    planned matches Err(error) && is_usage(
                        error,
                        "Invalid HTTP method for raw query."@,
                    )
                },
            },
        },
{
    let body = match parse_body_file(file, contents) {
        Ok(body) => body,
        Err(error) => {
            return Err(error);
        },
    };
    plan_raw(client, method, path, query, Some(body))
}

/// Decides what `command` asks for, where `now` is the present in seconds since
/// 1970: a request to send, a file to read first, or a refusal.
pub fn plan(client: &DatadogClient, command: Command, now: i64) -> (planned: Result<
    Planned,
    AppError,
>)
    ensures
        command_planned(command, now, planned),
{
    match command {
        Command::Logs { query, from, to, limit, sort, cursor } => {
            let built = client.query_logs(LogsQuery { query, from, to, limit, sort, cursor });
            match lift(built) {
                Ok(request) => Ok(Planned::Send(request)),
                Err(error) => Err(error),
            }
        },
        Command::Metrics { query, from, to } => {
            let (start, end) = match metrics_window(from.as_str(), to.as_str(), now) {
                Ok(window) => window,
                Err(error) => {
                    return Err(error);
                },
            };
            match lift(client.query_metrics(query.as_str(), start, end)) {
                Ok(request) => Ok(Planned::Send(request)),
                Err(error) => Err(error),
            }
        },
        Command::Events { query, from, to, limit, sort } => {
            let built = client.query_events(query, from, to, limit, sort);
            match lift(built) {
                Ok(request) => Ok(Planned::Send(request)),
                Err(error) => Err(error),
            }
        },
        Command::Raw { method, path, query_params, body, body_file } => {
            let query = match parse_query_params(&query_params) {
                Ok(query) => query,
                Err(error) => {
                    return Err(error);
                },
            };
            let source = match parse_raw_body(body, body_file) {
                Ok(source) => source,
                Err(error) => {
                    return Err(error);
                },
            };
            let body = match source {
                RawBody::File(file) => {
                    return Ok(Planned::ReadBody { method, path, query, file });
                },
                RawBody::Json(value) => Some(value),
                RawBody::Absent => None,
            };
            match plan_raw(client, method.as_str(), path.as_str(), query, body) {
                Ok(request) => Ok(Planned::Send(request)),
                Err(error) => Err(error),
            }
        },
    }
}

} // verus!
