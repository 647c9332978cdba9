use ddq::app_error::AppError;
use ddq::cli::{Cli, Command, OutputFormat};
use ddq::command::{
    configure, lift, metrics_window, parse_body_file, parse_query_param, parse_query_params, parse_raw_body,
    parsed_or_usage, plan, plan_raw, plan_with_body_file, Planned, RawBody,
};
use ddq::config::{Config, Environment, RetryConfig};
use ddq::datadog::{DatadogClient, DatadogError, LogicalRequest};

const NOW: i64 = 1_700_000_000;

fn client() -> DatadogClient {
    DatadogClient::new(Config {
        api_key: "api-key".to_string(),
        app_key: "app-key".to_string(),
        base_url: "https://api.datadoghq.com".to_string(),
        retry: RetryConfig {
            max_retries: 3,
            backoff_ms: 250,
            max_backoff_ms: 5_000,
            retry_rate_limit: true,
        },
        timeout_seconds: 30,
    })
}

fn json(text: &str) -> serde_json::Value {
    serde_json::from_str(text).unwrap()
}

fn pair(key: &str, value: &str) -> (String, String) {
    (key.to_string(), value.to_string())
}

fn usage<T>(message: &str) -> Result<T, AppError> {
    Err(AppError::Usage(message.to_string()))
}

fn strings(values: &[&str]) -> Vec<String> {
    values.iter().map(|value| value.to_string()).collect()
}

fn raw(method: &str, params: &[&str], body: Option<&str>, body_file: Option<&str>) -> Command {
    Command::Raw {
        method: method.to_string(),
        path: "/api/v1/monitor".to_string(),
        query_params: strings(params),
        body: body.map(|b| b.to_string()),
        body_file: body_file.map(|f| f.to_string()),
    }
}

#[test]
fn query_param_splits_at_the_first_equals() {
    assert_eq!(parse_query_param("a=b"), Ok(pair("a", "b")));
    assert_eq!(parse_query_param("a=b=c"), Ok(pair("a", "b=c")));
    assert_eq!(parse_query_param("a="), Ok(pair("a", "")));
    assert_eq!(parse_query_param("filter[query]=\u{e9}t\u{e9} = x"), Ok(pair("filter[query]", "\u{e9}t\u{e9} = x")));
}

#[test]
fn query_param_without_equals_is_refused() {
    assert_eq!(parse_query_param("abc"), usage("Invalid query param `abc`. Expected key=value."));
    assert_eq!(parse_query_param(""), usage("Invalid query param ``. Expected key=value."));
}

#[test]
fn query_param_without_key_is_refused() {
    assert_eq!(parse_query_param("=b"), usage("Query param key cannot be empty in `=b`."));
    assert_eq!(parse_query_param("="), usage("Query param key cannot be empty in `=`."));
}

#[test]
fn query_params_keep_their_order() {
    assert_eq!(
        parse_query_params(&strings(&["b=2", "a=1", "b=3"])),
        Ok(vec![pair("b", "2"), pair("a", "1"), pair("b", "3")])
    );
    assert_eq!(parse_query_params(&vec![]), Ok(vec![]));
}

#[test]
fn first_bad_query_param_is_reported() {
    assert_eq!(
        parse_query_params(&strings(&["a=1", "=x", "nope"])),
        usage("Query param key cannot be empty in `=x`.")
    );
    assert_eq!(
        parse_query_params(&strings(&["a=1", "nope", "=x"])),
        usage("Invalid query param `nope`. Expected key=value.")
    );
}

#[test]
fn raw_body_from_the_command_line() {
    assert_eq!(
        parse_raw_body(Some("{\"a\": 1}".to_string()), None),
        Ok(RawBody::Json(json("{\"a\":1}")))
    );
    assert_eq!(parse_raw_body(Some("null".to_string()), None), Ok(RawBody::Json(json("null"))));
    assert_eq!(parse_raw_body(None, None), Ok(RawBody::Absent));
    assert_eq!(
        parse_raw_body(None, Some("body.json".to_string())),
        Ok(RawBody::File("body.json".to_string()))
    );
}

#[test]
fn raw_body_that_is_no_json_is_refused() {
    assert_eq!(
        parse_raw_body(Some("{a: 1}".to_string()), None),
        usage("Invalid JSON passed to --body for raw request.")
    );
    assert_eq!(
        parse_raw_body(Some(String::new()), None),
        usage("Invalid JSON passed to --body for raw request.")
    );
}

#[test]
fn raw_body_and_file_together_are_refused() {
    assert_eq!(
        parse_raw_body(Some("{}".to_string()), Some("body.json".to_string())),
        usage("Provide only one of --body or --body-file for raw requests.")
    );
    assert_eq!(
        parse_raw_body(Some("not json".to_string()), Some("body.json".to_string())),
        usage("Provide only one of --body or --body-file for raw requests.")
    );
}

#[test]
fn body_file_contents_are_parsed() {
    assert_eq!(
        parse_body_file("body.json", Some(" [1, 2] ".to_string())),
        Ok(json("[1,2]"))
    );
    assert_eq!(
        parse_body_file("body.json", Some("oops".to_string())),
        usage("Invalid JSON in raw body file `body.json`")
    );
    assert_eq!(
        parse_body_file("/tmp/missing.json", None),
        usage("Failed reading raw body file `/tmp/missing.json`")
    );
}

#[test]
fn parsed_body_or_usage_error() {
    assert_eq!(parsed_or_usage(Some(json("{}")), "m".to_string()), Ok(json("{}")));
    assert_eq!(parsed_or_usage(None, "m".to_string()), usage("m"));
}

#[test]
fn metrics_window_is_resolved() {
    assert_eq!(metrics_window("now-15m", "now", NOW), Ok((NOW - 900, NOW)));
    assert_eq!(metrics_window("1000", "2024-01-01T00:00:00Z", NOW), Ok((1_000, 1_704_067_200)));
}

#[test]
fn metrics_window_must_not_be_empty_or_reversed() {
    let message = "Invalid metrics time window: `to` must be greater than `from`.";
    assert_eq!(metrics_window("now", "now", NOW), usage(message));
    assert_eq!(metrics_window("now", "now-15m", NOW), usage(message));
    assert_eq!(metrics_window("5", "4", NOW), usage(message));
}

#[test]
fn metrics_window_reports_bad_times() {
    assert_eq!(
        metrics_window("yesterday", "nonsense", NOW),
        usage("Unsupported time format `yesterday`")
    );
    assert_eq!(
        metrics_window("now-1h", "now-1y", NOW),
        usage("Invalid relative duration unit `y`. Use one of s,m,h,d,w.")
    );
    assert_eq!(
        metrics_window("now-h", "now", NOW),
        usage("Invalid relative time `h`. Expected e.g. now-15m.")
    );
    assert_eq!(
        metrics_window("now-zzh", "now", NOW),
        usage("Invalid relative duration quantity `zz`")
    );
}

#[test]
fn request_failures_are_lifted() {
    let request = LogicalRequest {
        method: reqwest::Method::GET,
        path: "/x".to_string(),
        query: vec![],
        body: None,
    };
    let same = LogicalRequest {
        method: reqwest::Method::GET,
        path: "/x".to_string(),
        query: vec![],
        body: None,
    };
    assert_eq!(lift(Ok(request)), Ok(same));
    assert_eq!(
        lift(Err(DatadogError::Api { status: 400, body: "b".to_string() })),
        Err(AppError::Api { status: 400, message: "b".to_string() })
    );
}

#[test]
fn plan_logs_command() {
    let command = Command::Logs {
        query: "status:error".to_string(),
        from: "now-15m".to_string(),
        to: "now".to_string(),
        limit: 10,
        sort: "desc".to_string(),
        cursor: None,
    };
    let planned = plan(&client(), command, NOW).unwrap();
    assert_eq!(
        planned,
        Planned::Send(LogicalRequest {
            method: reqwest::Method::POST,
            path: "/api/v2/logs/events/search".to_string(),
            query: vec![],
            body: Some(json(
                "{\"filter\":{\"query\":\"status:error\",\"from\":\"now-15m\",\"to\":\"now\"},\
                 \"sort\":\"-timestamp\",\"page\":{\"limit\":10}}"
            )),
        })
    );
}

#[test]
fn plan_logs_with_sort_sideways_is_a_usage_error() {
    let command = Command::Logs {
        query: "q".to_string(),
        from: "now-15m".to_string(),
        to: "now".to_string(),
        limit: 10,
        sort: "sideways".to_string(),
        cursor: None,
    };
    let error = plan(&client(), command, NOW).unwrap_err();
    assert_eq!(
        error,
        AppError::Usage("Invalid sort `sideways`. Use `asc` or `desc` for logs queries.".to_string())
    );
    assert_eq!(error.exit_code(), 2);
    assert_eq!(error.to_json()["error"]["category"].as_str(), Some("usage"));
}

#[test]
fn plan_events_with_sort_sideways_is_a_usage_error() {
    let command = Command::Events {
        query: None,
        from: "now-15m".to_string(),
        to: "now".to_string(),
        limit: 10,
        sort: "sideways".to_string(),
    };
    assert_eq!(
        plan(&client(), command, NOW),
        usage("Invalid sort `sideways`. Use `asc` or `desc` for events queries.")
    );
}

#[test]
fn plan_events_command() {
    let command = Command::Events {
        query: Some("deploy".to_string()),
        from: "now-1h".to_string(),
        to: "now".to_string(),
        limit: 5,
        sort: "asc".to_string(),
    };
    assert_eq!(
        plan(&client(), command, NOW),
        Ok(Planned::Send(LogicalRequest {
            method: reqwest::Method::GET,
            path: "/api/v2/events".to_string(),
            query: vec![
                pair("filter[from]", "now-1h"),
                pair("filter[to]", "now"),
                pair("page[limit]", "5"),
                pair("sort", "timestamp"),
                pair("filter[query]", "deploy"),
            ],
            body: None,
        }))
    );
}

#[test]
fn plan_metrics_command_resolves_the_window() {
    let command = Command::Metrics {
        query: "avg:system.load.1{*}".to_string(),
        from: "now-1h".to_string(),
        to: "now".to_string(),
    };
    assert_eq!(
        plan(&client(), command, NOW),
        Ok(Planned::Send(LogicalRequest {
            method: reqwest::Method::GET,
            path: "/api/v1/query".to_string(),
            query: vec![
                pair("query", "avg:system.load.1{*}"),
                pair("from", "1699996400"),
                pair("to", "1700000000"),
            ],
            body: None,
        }))
    );
}

#[test]
fn plan_metrics_command_refuses_a_reversed_window() {
    let command = Command::Metrics {
        query: "q".to_string(),
        from: "now".to_string(),
        to: "now-1h".to_string(),
    };
    assert_eq!(
        plan(&client(), command, NOW),
        usage("Invalid metrics time window: `to` must be greater than `from`.")
    );
}

#[test]
fn plan_raw_command() {
    assert_eq!(
        plan(&client(), raw("PUT", &["a=1", "b=2"], Some("{\"x\":true}"), None), NOW),
        Ok(Planned::Send(LogicalRequest {
            method: reqwest::Method::PUT,
            path: "/api/v1/monitor".to_string(),
            query: vec![pair("a", "1"), pair("b", "2")],
            body: Some(json("{\"x\":true}")),
        }))
    );
    assert_eq!(
        plan(&client(), raw("GET", &[], None, None), NOW),
        Ok(Planned::Send(LogicalRequest {
            method: reqwest::Method::GET,
            path: "/api/v1/monitor".to_string(),
            query: vec![],
            body: None,
        }))
    );
}

#[test]
fn plan_raw_command_checks_parameters_then_body_then_method() {
    assert_eq!(
        plan(&client(), raw("BAD METHOD", &["nope"], Some("not json"), Some("f")), NOW),
        usage("Invalid query param `nope`. Expected key=value.")
    );
    assert_eq!(
        plan(&client(), raw("BAD METHOD", &["a=1"], Some("not json"), Some("f")), NOW),
        usage("Provide only one of --body or --body-file for raw requests.")
    );
    assert_eq!(
        plan(&client(), raw("BAD METHOD", &["a=1"], Some("not json"), None), NOW),
        usage("Invalid JSON passed to --body for raw request.")
    );
    assert_eq!(
        plan(&client(), raw("BAD METHOD", &["a=1"], Some("{}"), None), NOW),
        usage("Invalid HTTP method for raw query.")
    );
}

#[test]
fn plan_raw_command_asks_for_the_body_file() {
    assert_eq!(
        plan(&client(), raw("BAD METHOD", &["a=1"], None, Some("body.json")), NOW),
        Ok(Planned::ReadBody {
            method: "BAD METHOD".to_string(),
            path: "/api/v1/monitor".to_string(),
            query: vec![pair("a", "1")],
            file: "body.json".to_string(),
        })
    );
}

#[test]
fn plan_goes_on_with_the_body_file() {
    assert_eq!(
        plan_with_body_file(
            &client(),
            "POST",
            "/api/v1/monitor",
            vec![pair("a", "1")],
            "body.json",
            Some("{\"name\":\"m\"}".to_string())
        ),
        Ok(LogicalRequest {
            method: reqwest::Method::POST,
            path: "/api/v1/monitor".to_string(),
            query: vec![pair("a", "1")],
            body: Some(json("{\"name\":\"m\"}")),
        })
    );
    assert_eq!(
        plan_with_body_file(&client(), "BAD METHOD", "/x", vec![], "body.json", None),
        usage("Failed reading raw body file `body.json`")
    );
    assert_eq!(
        plan_with_body_file(&client(), "BAD METHOD", "/x", vec![], "body.json", Some("x".to_string())),
        usage("Invalid JSON in raw body file `body.json`")
    );
    assert_eq!(
        plan_with_body_file(&client(), "BAD METHOD", "/x", vec![], "body.json", Some("1".to_string())),
        usage("Invalid HTTP method for raw query.")
    );
}

#[test]
fn plan_raw_with_known_parts() {
    assert_eq!(
        plan_raw(&client(), "DELETE", "https://other.test/x", vec![], None),
        Ok(LogicalRequest {
            method: reqwest::Method::DELETE,
            path: "https://other.test/x".to_string(),
            query: vec![],
            body: None,
        })
    );
    assert_eq!(
        plan_raw(&client(), "", "/x", vec![], None),
        usage("Invalid HTTP method for raw query.")
    );
}

#[test]
fn configuration_failures_are_usage_errors() {
    let mut cli = Cli {
        site: None,
        api_key: None,
        app_key: Some("app".to_string()),
        compact: false,
        output: OutputFormat::Pretty,
        retries: 0,
        retry_backoff_ms: 1,
        retry_max_backoff_ms: 1,
        retry_rate_limit: false,
        timeout_seconds: 0,
        command: raw("GET", &[], None, None),
    };
    let env = Environment { api_key: None, app_key: None, application_key: None, site: None };
    assert_eq!(
        configure(&cli, &env),
        usage("Missing Datadog API key. Set --api-key or DD_API_KEY.")
    );
    cli.api_key = Some("api".to_string());
    assert_eq!(configure(&cli, &env), usage("--timeout-seconds must be greater than 0."));
    cli.timeout_seconds = 9;
    assert_eq!(
        configure(&cli, &env),
        Ok(Config {
            api_key: "api".to_string(),
            app_key: "app".to_string(),
            base_url: "https://api.datadoghq.com".to_string(),
            retry: RetryConfig {
                max_retries: 0,
                backoff_ms: 1,
                max_backoff_ms: 1,
                retry_rate_limit: false,
            },
            timeout_seconds: 9,
        })
    );
}
