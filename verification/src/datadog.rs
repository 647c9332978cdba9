//! The client of the API: the requests that it makes, the errors that a request
//! can end with, and how a response is read.
//!
//! Sending a request and sleeping between attempts are left to the caller:
//! [`DatadogClient::prepare`] says what to send, and
//! [`DatadogClient::next_step`] says, for the result of an attempt, whether to
//! send again, after which delay, or how the request ended.

use crate::config::{Config, RetryConfig};
use crate::endpoint::{
    attach_query, invalid_target, invalid_target_text, is_method_token, method_from_token,
    method_get, method_post, method_text, request_url, resolve_url, url_text,
};
use crate::json::{
    empty_object, json_model, json_string, json_unsigned, no_members, set_member, JsonModel,
};
use crate::retry::{backoff_delay, next_step_spec, AttemptResult, Step};
use crate::text::{
    byte_len, chars_of, decimal, decimal_string, fitting_chars, fitting_prefix,
    lemma_fitting_chars_is_longest, lower, parse_u64, parse_u64_spec, same_text, signed_decimal,
    signed_decimal_string, string_of, to_ascii_lowercase, trim, trim_bounds,
};
use vstd::prelude::*;
use vstd::string::StringExecFns;

verus! {

/// The most bytes of a response body that an error carries.
pub const MAX_ERROR_BODY_BYTES: usize = 2048;

/// How a request failed.
#[derive(Debug, Clone, PartialEq, Eq)]
#[allow(inconsistent_fields)]
pub enum DatadogError {
    /// The request was malformed; nothing was sent, or nothing could be sent.
    InvalidRequest(String),
    /// The API refused the credentials (401 or 403).
    Auth { status: u16, body: String },
    /// The API asked to slow down (429) and the request was not sent again.
    RateLimited { body: String, retry_after_ms: Option<u64> },
    /// A failure that may pass, once every retry was used up.
    Retryable { status: Option<u16>, message: String },
    /// Any other status outside 200 to 299.
    Api { status: u16, body: String },
}

/// A [`DatadogError`] with its texts as sequences of characters.
#[allow(inconsistent_fields)]
pub enum DatadogErrorView {
    InvalidRequest(Seq<char>),
    Auth { status: u16, body: Seq<char> },
    RateLimited { body: Seq<char>, retry_after_ms: Option<u64> },
    Retryable { status: Option<u16>, message: Seq<char> },
    Api { status: u16, body: Seq<char> },
}

impl View for DatadogError {
    type V = DatadogErrorView;

    open spec fn view(&self) -> DatadogErrorView {
        match self {
            DatadogError::InvalidRequest(message) => DatadogErrorView::InvalidRequest(message@),
            DatadogError::Auth { status, body } => DatadogErrorView::Auth {
                status: *status,
                body: body@,
            },
            DatadogError::RateLimited { body, retry_after_ms } => DatadogErrorView::RateLimited {
                body: body@,
                retry_after_ms: *retry_after_ms,
            },
            DatadogError::Retryable { status, message } => DatadogErrorView::Retryable {
                status: *status,
                message: message@,
            },
            DatadogError::Api { status, body } => DatadogErrorView::Api {
                status: *status,
                body: body@,
            },
        }
    }
}

impl DatadogErrorView {
    /// The error in one line.
    pub open spec fn text(self) -> Seq<char> {
        match self {
            DatadogErrorView::InvalidRequest(message) => message,
            DatadogErrorView::Auth { status, body } => "Datadog auth error ("@ + decimal(
                status as nat,
            ) + "): "@ + body,
            DatadogErrorView::RateLimited { body, retry_after_ms: Some(delay) } =>
                "Datadog rate limited request (429, retry_after_ms="@ + decimal(delay as nat)
                    + "): "@ + body,
            DatadogErrorView::RateLimited { body, retry_after_ms: None } =>
                "Datadog rate limited request (429): "@ + body,
            DatadogErrorView::Retryable { status: Some(status), message } =>
                "Datadog retryable upstream error ("@ + decimal(status as nat) + "): "@ + message,
            DatadogErrorView::Retryable { status: None, message } =>
                "Datadog retryable transport error: "@ + message,
            DatadogErrorView::Api { status, body } => "Datadog API error ("@ + decimal(
                status as nat,
            ) + "): "@ + body,
        }
    }
}

impl DatadogError {
    /// The error in one line, for a reader.
    pub fn to_text(&self) -> (text: String)
        ensures
            text@ == self@.text(),
    {
        match self {
            DatadogError::InvalidRequest(message) => message.clone(),
            DatadogError::Auth { status, body } => {
                let mut text = "Datadog auth error (".to_owned();
                text.append(decimal_string(*status as u64).as_str());
                text.append("): ");
                text.append(body.as_str());
                text
            },
            DatadogError::RateLimited { body, retry_after_ms: Some(delay) } => {
                let mut text = "Datadog rate limited request (429, retry_after_ms=".to_owned();
                text.append(decimal_string(*delay).as_str());
                text.append("): ");
                text.append(body.as_str());
                text
            },
            DatadogError::RateLimited { body, retry_after_ms: None } => {
                let mut text = "Datadog rate limited request (429): ".to_owned();
                text.append(body.as_str());
                text
            },
            DatadogError::Retryable { status: Some(status), message } => {
                let mut text = "Datadog retryable upstream error (".to_owned();
                text.append(decimal_string(*status as u64).as_str());
                text.append("): ");
                text.append(message.as_str());
                text
            },
            DatadogError::Retryable { status: None, message } => {
                let mut text = "Datadog retryable transport error: ".to_owned();
                text.append(message.as_str());
                text
            },
            DatadogError::Api { status, body } => {
                let mut text = "Datadog API error (".to_owned();
                text.append(decimal_string(*status as u64).as_str());
                text.append("): ");
                text.append(body.as_str());
                text
            },
        }
    }
}

/// The mark that ends a body of which only the beginning is kept.
pub open spec fn truncation_mark() -> Seq<char> {
    "...(truncated)"@
}

/// A response body as an error carries it: whole where it takes at most
/// [`MAX_ERROR_BODY_BYTES`] bytes in UTF-8, and otherwise its longest prefix of
/// whole characters within that many bytes, followed by the truncation mark.
pub open spec fn error_body(text: Seq<char>) -> Seq<char> {
    if byte_len(text) <= MAX_ERROR_BODY_BYTES {
        text
    } else {
        text.subrange(0, fitting_chars(text, MAX_ERROR_BODY_BYTES as nat) as int)
            + truncation_mark()
    }
}

/// Bounds a response body for use in an error.
pub fn truncate_for_error(text: &str) -> (kept: String)
    ensures
        kept@ == error_body(text@),
{
    let chars = chars_of(text);
    let fit = fitting_prefix(&chars, MAX_ERROR_BODY_BYTES);
    if fit == chars.len() {
        text.to_owned()
    } else {
        let mut kept = string_of(&chars, 0, fit);
        kept.append("...(truncated)");
        kept
    }
}

/// A body of more than [`MAX_ERROR_BODY_BYTES`] bytes is carried as a prefix of
/// whole characters, followed by the truncation mark. The prefix takes no more
/// than that many bytes, and one character more would.
pub proof fn law_long_bodies_truncated(body: Seq<char>)
    requires
        byte_len(body) > MAX_ERROR_BODY_BYTES,
    ensures
        ({
            let kept = fitting_chars(body, MAX_ERROR_BODY_BYTES as nat) as int;
            &&& 0 <= kept < body.len()
            &&& error_body(body) == body.subrange(0, kept) + truncation_mark()
            &&& byte_len(body.subrange(0, kept)) <= MAX_ERROR_BODY_BYTES
            &&& byte_len(body.subrange(0, kept + 1)) > MAX_ERROR_BODY_BYTES
        }),
{
    lemma_fitting_chars_is_longest(body, MAX_ERROR_BODY_BYTES as nat);
}

/// A body of at most [`MAX_ERROR_BODY_BYTES`] bytes is carried whole.
pub proof fn law_short_bodies_kept(body: Seq<char>)
    requires
        byte_len(body) <= MAX_ERROR_BODY_BYTES,
    ensures
        error_body(body) == body,
{
}

/// A byte that a header value may hold and still be read as text: visible ASCII,
/// a space or a tab.
pub open spec fn is_visible_ascii(byte: u8) -> bool {
    (32 <= byte < 127) || byte == 9
}

/// The text of a header value all of whose bytes are visible ASCII.
pub open spec fn header_text(value: Seq<u8>) -> Seq<char> {
    Seq::new(value.len(), |i: int| value[i] as char)
}

/// A number of seconds in milliseconds, or the largest 64-bit number where that
/// is smaller.
pub open spec fn seconds_to_ms(seconds: u64) -> u64 {
    if seconds * 1000 <= u64::MAX {
        (seconds * 1000) as u64
    } else {
        u64::MAX
    }
}

/// The bytes of a header value, if there is one.
pub open spec fn header_bytes(value: Option<Vec<u8>>) -> Option<Seq<u8>> {
    match value {
        Some(bytes) => Some(bytes@),
        None => None,
    }
}

/// The delay that a `Retry-After` header asks for, in milliseconds: the header
/// is there, reads as text, and spells, between optional white space, a whole
/// number of seconds. Any other value asks for nothing.
pub open spec fn retry_after_ms_spec(value: Option<Seq<u8>>) -> Option<u64> {
    match value {
        Some(bytes) => {
            if forall|i: int| 0 <= i < bytes.len() ==> is_visible_ascii(#[trigger] bytes[i]) {
                match parse_u64_spec(trim(header_text(bytes))) {
                    Some(seconds) => Some(seconds_to_ms(seconds)),
                    None => None,
                }
            } else {
                None
            }
        },
        None => None,
    }
}

/// Reads the value of a `Retry-After` header, given as the bytes that were
/// received.
pub fn parse_retry_after_ms(value: &Option<Vec<u8>>) -> (delay: Option<u64>)
    ensures
        delay == retry_after_ms_spec(header_bytes(*value)),
{
    match value {
        None => None,
        Some(bytes) => {
            let mut chars: Vec<char> = Vec::new();
            let mut i: usize = 0;
            while i < bytes.len()
                invariant
                    i <= bytes.len(),
                    *value == Some(*bytes),
                    chars@ == header_text(bytes@).subrange(0, i as int),
                    forall|k: int| 0 <= k < i ==> is_visible_ascii(#[trigger] bytes@[k]),
                decreases bytes.len() - i,
            {
                let byte = bytes[i];
                if !((32 <= byte && byte < 127) || byte == 9) {
                    assert(!is_visible_ascii(bytes@[i as int]));
                    return None;
                }
                chars.push(byte as char);
                assert(chars@ =~= header_text(bytes@).subrange(0, i + 1));
                i += 1;
            }
            assert(chars@ =~= header_text(bytes@));
            let (from, to) = trim_bounds(&chars);
            match parse_u64(&chars, from, to) {
                Some(seconds) => match seconds.checked_mul(1000) {
                    Some(ms) => Some(ms),
                    None => Some(u64::MAX),
                },
                None => None,
            }
        },
    }
}

/// Whether a status is worth another attempt: 408, or 500 to 599.
pub open spec fn retryable_status(status: u16) -> bool {
    status == 408 || 500 <= status < 600
}

/// Whether a status is worth another attempt.
pub fn is_retryable_status(status: u16) -> (retryable: bool)
    ensures
        retryable == retryable_status(status),
{
    status == 408 || (500 <= status && status < 600)
}

/// What the transport reported when no response arrived.
#[derive(Debug, Clone, PartialEq, Eq)]
pub struct TransportFailure {
    /// The attempt ran out of time.
    pub timeout: bool,
    /// No connection could be made.
    pub connect: bool,
    /// The body of the request or of the response failed.
    pub body: bool,
    /// The request could not be sent.
    pub request: bool,
    /// The transport's own words.
    pub message: String,
}

impl TransportFailure {
    /// Whether the failure may pass: a timeout, a failed connection, a body or a
    /// request error.
    pub open spec fn retryable(&self) -> bool {
        self.timeout || self.connect || self.body || self.request
    }
}

/// Whether a transport failure is worth another attempt.
pub fn is_retryable_transport_error(failure: &TransportFailure) -> (retryable: bool)
    ensures
        retryable == failure.retryable(),
{
    failure.timeout || failure.connect || failure.body || failure.request
}

/// A search in the logs.
#[derive(Debug, Clone, PartialEq, Eq)]
pub struct LogsQuery {
    pub query: String,
    pub from: String,
    pub to: String,
    pub limit: u32,
    /// `asc` or `desc`.
    pub sort: String,
    /// Where an earlier page of results ended.
    pub cursor: Option<String>,
}

/// A request before it is bound to an address: what one subcommand asks of the
/// API.
#[derive(Debug, PartialEq, Eq)]
pub struct LogicalRequest {
    pub method: reqwest::Method,
    /// A path under the base address, or an absolute address.
    pub path: String,
    /// The query parameters, in the order in which they are sent.
    pub query: Vec<(String, String)>,
    pub body: Option<serde_json::Value>,
}

/// A [`LogicalRequest`] as mathematical values.
pub struct LogicalRequestView {
    pub method: Seq<char>,
    pub path: Seq<char>,
    pub query: Seq<(Seq<char>, Seq<char>)>,
    pub body: Option<JsonModel>,
}

/// The content of a body, if there is one.
pub open spec fn body_model(body: Option<serde_json::Value>) -> Option<JsonModel> {
    match body {
        Some(value) => Some(json_model(value)),
        None => None,
    }
}

impl View for LogicalRequest {
    type V = LogicalRequestView;

    open spec fn view(&self) -> LogicalRequestView {
        LogicalRequestView {
            method: method_text(self.method),
            path: self.path@,
            query: self.query.deep_view(),
            body: body_model(self.body),
        }
    }
}

/// A request as it is sent, the same at every attempt.
#[derive(Debug, PartialEq, Eq)]
pub struct PreparedRequest {
    pub method: reqwest::Method,
    pub url: reqwest::Url,
    /// The headers, by name and value.
    pub headers: Vec<(String, String)>,
    pub body: Option<serde_json::Value>,
    /// The time that one attempt may take, in seconds.
    pub timeout_seconds: u64,
}

/// A [`PreparedRequest`] as mathematical values.
pub struct PreparedRequestView {
    pub method: Seq<char>,
    pub url: Seq<char>,
    pub headers: Seq<(Seq<char>, Seq<char>)>,
    pub body: Option<JsonModel>,
    pub timeout_seconds: u64,
}

impl View for PreparedRequest {
    type V = PreparedRequestView;

    open spec fn view(&self) -> PreparedRequestView {
        PreparedRequestView {
            method: method_text(self.method),
            url: url_text(self.url),
            headers: self.headers.deep_view(),
            body: body_model(self.body),
            timeout_seconds: self.timeout_seconds,
        }
    }
}

/// The field that results are sorted by: `timestamp` for `asc` and `-timestamp`
/// for `desc`. No other direction is known, nor one of these in another case.
pub open spec fn sort_field(sort: Seq<char>) -> Option<Seq<char>> {
    if sort == "asc"@ {
        Some("timestamp"@)
    } else if sort == "desc"@ {
        Some("-timestamp"@)
    } else {
        None
    }
}

/// What is reported of an unknown sort direction, which is quoted with its
/// ASCII capitals in lower case. `kind` names the queries that it was given
/// for.
pub open spec fn invalid_sort_text(sort: Seq<char>, kind: Seq<char>) -> Seq<char> {
    "Invalid sort `"@ + lower(sort) + "`. Use `asc` or `desc` for "@ + kind + " queries."@
}

/// The field that results are sorted by, for a direction given on the command
/// line.
pub fn sort_field_of(sort: &str, kind: &str) -> (field: Result<String, DatadogError>)
    ensures
        match sort_field(sort@) {
            Some(name) => field matches Ok(text) && text@ == name,
            None => field matches Err(error) && error@ == DatadogErrorView::InvalidRequest(
                invalid_sort_text(sort@, kind@),
            ),
        },
{
    if same_text(sort, "asc") {
        Ok("timestamp".to_owned())
    } else if same_text(sort, "desc") {
        Ok("-timestamp".to_owned())
    } else {
        let lowered = to_ascii_lowercase(sort);
        let mut message = "Invalid sort `".to_owned();
        message.append(lowered.as_str());
        message.append("`. Use `asc` or `desc` for ");
        message.append(kind);
        message.append(" queries.");
        Err(DatadogError::InvalidRequest(message))
    }
}

/// The `page` member of a logs search.
pub open spec fn logs_page(limit: u32, cursor: Option<String>) -> JsonModel {
    let limited = no_members().insert("limit"@, JsonModel::Int(limit as int));
    match cursor {
        Some(position) => JsonModel::Object(
            limited.insert("cursor"@, JsonModel::Str(position@)),
        ),
        None => JsonModel::Object(limited),
    }
}

/// The body of a logs search that sorts by `field`.
pub open spec fn logs_body(query: LogsQuery, field: Seq<char>) -> JsonModel {
    JsonModel::Object(
        no_members().insert(
            "filter"@,
            JsonModel::Object(
                no_members().insert("query"@, JsonModel::Str(query.query@)).insert(
                    "from"@,
                    JsonModel::Str(query.from@),
                ).insert("to"@, JsonModel::Str(query.to@)),
            ),
        ).insert("sort"@, JsonModel::Str(field)).insert(
            "page"@,
            logs_page(query.limit, query.cursor),
        ),
    )
}

/// The parameters of a metrics query.
pub open spec fn metrics_params(query: Seq<char>, from: i64, to: i64) -> Seq<
    (Seq<char>, Seq<char>),
> {
    seq![
        ("query"@, query),
        ("from"@, signed_decimal(from as int)),
        ("to"@, signed_decimal(to as int)),
    ]
}

/// The parameters of an events search that sorts by `field`.
pub open spec fn events_params(
    query: Option<String>,
    from: Seq<char>,
    to: Seq<char>,
    limit: u32,
    field: Seq<char>,
) -> Seq<(Seq<char>, Seq<char>)> {
    let fixed = seq![
        ("filter[from]"@, from),
        ("filter[to]"@, to),
        ("page[limit]"@, decimal(limit as nat)),
        ("sort"@, field),
    ];
    match query {
        Some(text) => fixed.push(("filter[query]"@, text@)),
        None => fixed,
    }
}

/// The headers that every request carries: the two keys, and JSON as the type
/// of what is sent and of what is accepted.
pub open spec fn fixed_headers(api_key: Seq<char>, app_key: Seq<char>) -> Seq<
    (Seq<char>, Seq<char>),
> {
    seq![
        ("DD-API-KEY"@, api_key),
        ("DD-APPLICATION-KEY"@, app_key),
        ("Content-Type"@, "application/json"@),
        ("Accept"@, "application/json"@),
    ]
}

/// A client of the API: where it is, who asks, and how failures are retried.
pub struct DatadogClient {
    base_url: String,
    api_key: String,
    app_key: String,
    retry: RetryConfig,
    timeout_seconds: u64,
}

impl DatadogClient {
    /// The base address that paths are resolved under.
    pub closed spec fn base(&self) -> Seq<char> {
        self.base_url@
    }

    /// The API key.
    pub closed spec fn api_key_text(&self) -> Seq<char> {
        self.api_key@
    }

    /// The application key.
    pub closed spec fn app_key_text(&self) -> Seq<char> {
        self.app_key@
    }

    /// The retry policy.
    pub closed spec fn policy(&self) -> RetryConfig {
        self.retry
    }

    /// The time that one attempt may take, in seconds.
    pub closed spec fn timeout(&self) -> u64 {
        self.timeout_seconds
    }

    /// The client that a configuration describes.
    pub fn new(config: Config) -> (client: Self)
        ensures
            client.base() == config.base_url@,
            client.api_key_text() == config.api_key@,
            client.app_key_text() == config.app_key@,
            client.policy() == config.retry,
            client.timeout() == config.timeout_seconds,
    {
        DatadogClient {
            base_url: config.base_url,
            api_key: config.api_key,
            app_key: config.app_key,
            retry: config.retry,
            timeout_seconds: config.timeout_seconds,
        }
    }

    /// The retry policy.
    pub fn retry(&self) -> (policy: RetryConfig)
        ensures
            policy == self.policy(),
    {
        self.retry
    }

    /// A search in the logs: a `POST` whose body holds the filter, the sort field
    /// and the page. An unknown sort direction is refused.
    pub fn query_logs(&self, query: LogsQuery) -> (request: Result<LogicalRequest, DatadogError>)
        ensures
            match sort_field(query.sort@) {
                Some(field) => request matches Ok(built) && built@ == (LogicalRequestView {
                    method: "POST"@,
                    path: "/api/v2/logs/events/search"@,
                    query: Seq::empty(),
                    body: Some(logs_body(query, field)),
                }),
                None => request matches Err(error) && error@ == DatadogErrorView::InvalidRequest(
                    invalid_sort_text(query.sort@, "logs"@),
                ),
            },
    {
        let field = match sort_field_of(query.sort.as_str(), "logs") {
            Ok(field) => field,
            Err(error) => {
                return Err(error);
            },
        };
        let mut page = empty_object();
        set_member(&mut page, "limit", json_unsigned(query.limit as u64));
        match &query.cursor {
            Some(position) => {
                set_member(&mut page, "cursor", json_string(position.clone()));
            },
            None => {},
        }
        let mut filter = empty_object();
        set_member(&mut filter, "query", json_string(query.query.clone()));
        set_member(&mut filter, "from", json_string(query.from.clone()));
        set_member(&mut filter, "to", json_string(query.to.clone()));
        let mut body = empty_object();
        set_member(&mut body, "filter", filter);
        set_member(&mut body, "sort", json_string(field));
        set_member(&mut body, "page", page);
        let query_pairs: Vec<(String, String)> = Vec::new();
        let built = LogicalRequest {
            method: method_post(),
            path: "/api/v2/logs/events/search".to_owned(),
            query: query_pairs,
            body: Some(body),
        };
        assert(built@.query =~= Seq::empty());
        Ok(built)
    }

    /// A metrics query over a window given in seconds since 1970: a `GET` with the
    /// parameters `query`, `from` and `to`.
    pub fn query_metrics(&self, query: &str, from: i64, to: i64) -> (request: Result<
        LogicalRequest,
        DatadogError,
    >)
        ensures
            request matches Ok(built) && built@ == (LogicalRequestView {
                method: "GET"@,
                path: "/api/v1/query"@,
                query: metrics_params(query@, from, to),
                body: None,
            }),
    {
        let mut params: Vec<(String, String)> = Vec::new();
        params.push(("query".to_owned(), query.to_owned()));
        params.push(("from".to_owned(), signed_decimal_string(from)));
        params.push(("to".to_owned(), signed_decimal_string(to)));
        let built = LogicalRequest {
            method: method_get(),
            path: "/api/v1/query".to_owned(),
            query: params,
            body: None,
        };
        assert(built@.query =~= metrics_params(query@, from, to));
        Ok(built)
    }

    /// A search in the events: a `GET` with the window, the page size and the
    /// sort field as parameters, and the filter after them where there is one. An
    /// unknown sort direction is refused.
    pub fn query_events(
        &self,
        query: Option<String>,
        from: String,
        to: String,
        limit: u32,
        sort: String,
    ) -> (request: Result<LogicalRequest, DatadogError>)
        ensures
            match sort_field(sort@) {
                Some(field) => request matches Ok(built) && built@ == (LogicalRequestView {
                    method: "GET"@,
                    path: "/api/v2/events"@,
                    query: events_params(query, from@, to@, limit, field),
                    body: None,
                }),
                None => request matches Err(error) && error@ == DatadogErrorView::InvalidRequest(
                    invalid_sort_text(sort@, "events"@),
                ),
            },
    {
        let field = match sort_field_of(sort.as_str(), "events") {
            Ok(field) => field,
            Err(error) => {
                return Err(error);
            },
        };
        let ghost field_text = field@;
        let mut params: Vec<(String, String)> = Vec::new();
        params.push(("filter[from]".to_owned(), from));
        params.push(("filter[to]".to_owned(), to));
        params.push(("page[limit]".to_owned(), decimal_string(limit as u64)));
        params.push(("sort".to_owned(), field));
        match &query {
            Some(text) => {
                params.push(("filter[query]".to_owned(), text.clone()));
            },
            None => {},
        }
        let built = LogicalRequest {
            method: method_get(),
            path: "/api/v2/events".to_owned(),
            query: params,
            body: None,
        };
        assert(built@.query =~= events_params(query, from@, to@, limit, field_text));
        Ok(built)
    }

    /// Any request, as the caller spells it. A method that is no HTTP method is
    /// refused.
    pub fn raw(
        &self,
        method: &str,
        path: &str,
        params: Vec<(String, String)>,
        body: Option<serde_json::Value>,
    ) -> (request: Result<LogicalRequest, DatadogError>)
        ensures
            if is_method_token(method@) {
                request matches Ok(built) && built@ == (LogicalRequestView {
                    method: method@,
                    path: path@,
                    query: params.deep_view(),
                    body: body_model(body),
                })
            } else {
                request matches Err(error) && error@ == DatadogErrorView::InvalidRequest(
                    "Invalid HTTP method for raw query."@,
                )
            },
    {
        match method_from_token(method) {
            Some(parsed) => Ok(
                LogicalRequest { method: parsed, path: path.to_owned(), query: params, body },
            ),
            None => Err(
                DatadogError::InvalidRequest("Invalid HTTP method for raw query.".to_owned()),
            ),
        }
    }

    /// The headers that every request carries.
    pub fn headers(&self) -> (headers: Vec<(String, String)>)
        ensures
            headers.deep_view() == fixed_headers(self.api_key_text(), self.app_key_text()),
    {
        let mut headers: Vec<(String, String)> = Vec::new();
        headers.push(("DD-API-KEY".to_owned(), self.api_key.clone()));
        headers.push(("DD-APPLICATION-KEY".to_owned(), self.app_key.clone()));
        headers.push(("Content-Type".to_owned(), "application/json".to_owned()));
        headers.push(("Accept".to_owned(), "application/json".to_owned()));
        assert(headers.deep_view() =~= fixed_headers(self.api_key_text(), self.app_key_text()));
        headers
    }

    /// Binds a request to its address: the path is resolved under the base
    /// address, the query parameters are added in their order, and the fixed
    /// headers and the time limit are attached. A path whose address cannot be
    /// used is refused, and nothing is sent.
    pub fn prepare(&self, request: LogicalRequest) -> (prepared: Result<
        PreparedRequest,
        DatadogError,
    >)
        ensures
            match request_url(self.base(), request.path@, request.query.deep_view()) {
                Some(url) => prepared matches Ok(ready) && ready@ == (PreparedRequestView {
                    method: method_text(request.method),
                    url,
                    headers: fixed_headers(self.api_key_text(), self.app_key_text()),
                    body: body_model(request.body),
                    timeout_seconds: self.timeout(),
                }),
                None => prepared matches Err(error) && error@ == DatadogErrorView::InvalidRequest(
                    invalid_target_text(self.base(), request.path@),
                ),
            },
    {
        let resolved = match resolve_url(self.base_url.as_str(), request.path.as_str()) {
            Some(url) => attach_query(url, &request.query),
            None => None,
        };
        match resolved {
            Some(url) => Ok(
                PreparedRequest {
                    method: request.method,
                    url,
                    headers: self.headers(),
                    body: request.body,
                    timeout_seconds: self.timeout_seconds,
                },
            ),
            None => Err(
                DatadogError::InvalidRequest(
                    invalid_target(self.base_url.as_str(), request.path.as_str()),
                ),
            ),
        }
    }

    /// The computed delay before the retry that follows attempt number `attempt`.
    pub fn backoff_ms(&self, attempt: u32) -> (delay: u64)
        ensures
            delay == backoff_delay(self.policy(), attempt),
    {
        self.retry.backoff_ms(attempt)
    }

    /// Decides what follows attempt number `attempt`, counted from zero, given
    /// what the attempt came to.
    pub fn next_step(&self, attempt: u32, result: AttemptResult) -> (step: Step)
        ensures
            step@ == next_step_spec(self.policy(), attempt, result),
    {
        self.retry.next_step(attempt, result)
    }
}

} // verus!
