//! Connection settings and the retry policy, from the command line and the
//! environment.

use crate::cli::Cli;
use crate::text::{
    chars_of, has_prefix, join, range_has_prefix, string_of, strip_trailing, strip_trailing_bound,
    trim, trim_bounds,
};
use vstd::prelude::*;

verus! {

/// How failed attempts are retried.
#[derive(Debug, Clone, Copy, PartialEq, Eq)]
pub struct RetryConfig {
    /// How often a request is sent again after its first attempt, at most.
    pub max_retries: u32,
    /// The delay before the first retry, in milliseconds.
    pub backoff_ms: u64,
    /// The longest delay between two attempts, in milliseconds.
    pub max_backoff_ms: u64,
    /// Whether a request is sent again after status 429.
    pub retry_rate_limit: bool,
}

impl RetryConfig {
    /// The policy's invariant: a positive base delay that does not exceed the
    /// ceiling.
    pub open spec fn wf(&self) -> bool {
        0 < self.backoff_ms <= self.max_backoff_ms
    }
}

/// What a client needs to reach the API.
#[derive(Debug, Clone, PartialEq, Eq)]
pub struct Config {
    pub api_key: String,
    pub app_key: String,
    pub base_url: String,
    pub retry: RetryConfig,
    pub timeout_seconds: u64,
}

/// A [`Config`] with its texts as sequences of characters.
pub struct ConfigView {
    pub api_key: Seq<char>,
    pub app_key: Seq<char>,
    pub base_url: Seq<char>,
    pub retry: RetryConfig,
    pub timeout_seconds: u64,
}

impl View for Config {
    type V = ConfigView;

    open spec fn view(&self) -> ConfigView {
        ConfigView {
            api_key: self.api_key@,
            app_key: self.app_key@,
            base_url: self.base_url@,
            retry: self.retry,
            timeout_seconds: self.timeout_seconds,
        }
    }
}

impl Config {
    /// A configuration's invariant: a valid retry policy and a positive time
    /// limit.
    pub open spec fn wf(&self) -> bool {
        self.retry.wf() && self.timeout_seconds > 0
    }
}

/// The variables of the environment that stand in for missing options. Each is
/// `None` where the variable is not set or is no Unicode text.
#[derive(Debug, Clone, PartialEq, Eq)]
pub struct Environment {
    /// `DD_API_KEY`
    pub api_key: Option<String>,
    /// `DD_APP_KEY`
    pub app_key: Option<String>,
    /// `DD_APPLICATION_KEY`
    pub application_key: Option<String>,
    /// `DD_SITE`
    pub site: Option<String>,
}

/// Why no configuration could be made.
#[derive(Debug, Clone, Copy, PartialEq, Eq)]
pub enum ConfigError {
    MissingApiKey,
    MissingAppKey,
    EmptySite,
    ZeroBackoff,
    MaxBackoffBelowBackoff,
    ZeroTimeout,
}

impl ConfigError {
    /// The error in words.
    pub open spec fn text(&self) -> Seq<char> {
        match self {
            ConfigError::MissingApiKey => "Missing Datadog API key. Set --api-key or DD_API_KEY."@,
            ConfigError::MissingAppKey =>
                "Missing Datadog application key. Set --app-key or DD_APP_KEY (or DD_APPLICATION_KEY)."@,
            ConfigError::EmptySite => "Datadog site value is empty."@,
            ConfigError::ZeroBackoff => "--retry-backoff-ms must be greater than 0."@,
            ConfigError::MaxBackoffBelowBackoff =>
                "--retry-max-backoff-ms must be greater than or equal to --retry-backoff-ms."@,
            ConfigError::ZeroTimeout => "--timeout-seconds must be greater than 0."@,
        }
    }

    /// The error in words.
    pub fn message(&self) -> (text: String)
        ensures
            text@ == self.text(),
    {
        match self {
            ConfigError::MissingApiKey => "Missing Datadog API key. Set --api-key or DD_API_KEY.".to_owned(),
            ConfigError::MissingAppKey =>
                "Missing Datadog application key. Set --app-key or DD_APP_KEY (or DD_APPLICATION_KEY).".to_owned(),
            ConfigError::EmptySite => "Datadog site value is empty.".to_owned(),
            ConfigError::ZeroBackoff => "--retry-backoff-ms must be greater than 0.".to_owned(),
            ConfigError::MaxBackoffBelowBackoff =>
                "--retry-max-backoff-ms must be greater than or equal to --retry-backoff-ms.".to_owned(),
            ConfigError::ZeroTimeout => "--timeout-seconds must be greater than 0.".to_owned(),
        }
    }
}

/// The site that was named, without the white space around it and the slashes
/// at its end.
pub open spec fn cleaned_site(site: Seq<char>) -> Seq<char> {
    strip_trailing(trim(site), '/')
}

/// The base address of the API for a site: the site itself where it is an
/// address, `https://` before a site that begins with `api.`, and `https://api.`
/// before any other. An empty site has none.
pub open spec fn base_url_of(site: Seq<char>) -> Option<Seq<char>> {
    let cleaned = cleaned_site(site);
    if cleaned.len() == 0 {
        None
    } else if has_prefix(cleaned, "http://"@) || has_prefix(cleaned, "https://"@) {
        Some(cleaned)
    } else if has_prefix(cleaned, "api."@) {
        Some("https://"@ + cleaned)
    } else {
        Some("https://api."@ + cleaned)
    }
}

/// The base address of the API for a site.
pub fn normalize_base_url(site: &str) -> (base_url: Result<String, ConfigError>)
    ensures
        match base_url_of(site@) {
            Some(address) => base_url matches Ok(text) && text@ == address,
            None => base_url == Err::<String, ConfigError>(ConfigError::EmptySite),
        },
{
    let chars = chars_of(site);
    let (from, trimmed_to) = trim_bounds(&chars);
    let to = strip_trailing_bound(&chars, from, trimmed_to, '/');
    if from == to {
        return Err(ConfigError::EmptySite);
    }
    let cleaned = string_of(&chars, from, to);
    if range_has_prefix(&chars, from, to, "http://") || range_has_prefix(
        &chars,
        from,
        to,
        "https://",
    ) {
        Ok(cleaned)
    } else if range_has_prefix(&chars, from, to, "api.") {
        Ok(join("https://", cleaned.as_str()))
    } else {
        Ok(join("https://api.", cleaned.as_str()))
    }
}

/// The first of two optional texts that is there.
pub open spec fn first_of(first: Option<String>, second: Option<String>) -> Option<Seq<char>> {
    match first {
        Some(text) => Some(text@),
        None => match second {
            Some(text) => Some(text@),
            None => None,
        },
    }
}

/// The first of two optional texts that is there.
fn first_present(first: &Option<String>, second: &Option<String>) -> (chosen: Option<String>)
    ensures
        chosen.deep_view() == first_of(*first, *second),
{
    match first {
        Some(text) => Some(text.clone()),
        None => match second {
            Some(text) => Some(text.clone()),
            None => None,
        },
    }
}

/// The site that a command line and an environment name: the option, else the
/// variable, else `datadoghq.com`.
pub open spec fn site_of(cli: Cli, env: Environment) -> Seq<char> {
    match first_of(cli.site, env.site) {
        Some(site) => site,
        None => "datadoghq.com"@,
    }
}

/// The application key that a command line and an environment name: the option,
/// else `DD_APP_KEY`, else `DD_APPLICATION_KEY`.
pub open spec fn app_key_of(cli: Cli, env: Environment) -> Option<Seq<char>> {
    match first_of(cli.app_key, env.app_key) {
        Some(key) => Some(key),
        None => first_of(env.application_key, None),
    }
}

/// The configuration that a command line and an environment give, or the first
/// thing that is wrong with them: a missing API key, a missing application key,
/// an empty site, a base delay of zero, a ceiling below the base delay, a time
/// limit of zero.
pub open spec fn config_of(cli: Cli, env: Environment) -> Result<ConfigView, ConfigError> {
    match first_of(cli.api_key, env.api_key) {
        None => Err(ConfigError::MissingApiKey),
        Some(api_key) => match app_key_of(cli, env) {
            None => Err(ConfigError::MissingAppKey),
            Some(app_key) => match base_url_of(site_of(cli, env)) {
                None => Err(ConfigError::EmptySite),
                Some(base_url) => if cli.retry_backoff_ms == 0 {
                    Err(ConfigError::ZeroBackoff)
                } else if cli.retry_max_backoff_ms < cli.retry_backoff_ms {
                    Err(ConfigError::MaxBackoffBelowBackoff)
                } else if cli.timeout_seconds == 0 {
                    Err(ConfigError::ZeroTimeout)
                } else {
                    Ok(
                        ConfigView {
                            api_key,
                            app_key,
                            base_url,
                            retry: RetryConfig {
                                max_retries: cli.retries,
                                backoff_ms: cli.retry_backoff_ms,
                                max_backoff_ms: cli.retry_max_backoff_ms,
                                retry_rate_limit: cli.retry_rate_limit,
                            },
                            timeout_seconds: cli.timeout_seconds,
                        },
                    )
                },
            },
        },
    }
}

impl Config {
    /// Makes the configuration that a command line and the environment give.
    pub fn from_cli(cli: &Cli, env: &Environment) -> (config: Result<Config, ConfigError>)
        ensures
            match config_of(*cli, *env) {
                Ok(view) => config matches Ok(made) && made@ == view && made.wf(),
                Err(error) => config == Err::<Config, ConfigError>(error),
            },
    {
        let api_key = match first_present(&cli.api_key, &env.api_key) {
            Some(key) => key,
            None => {
                return Err(ConfigError::MissingApiKey);
            },
        };
        let app_key = match first_present(&cli.app_key, &env.app_key) {
            Some(key) => key,
            None => match first_present(&env.application_key, &None) {
                Some(key) => key,
                None => {
                    return Err(ConfigError::MissingAppKey);
                },
            },
        };
        let site = match first_present(&cli.site, &env.site) {
            Some(site) => site,
            None => "datadoghq.com".to_owned(),
        };
        let base_url = match normalize_base_url(site.as_str()) {
            Ok(address) => address,
            Err(error) => {
                return Err(error);
            },
        };
        if cli.retry_backoff_ms == 0 {
            return Err(ConfigError::ZeroBackoff);
        }
        if cli.retry_max_backoff_ms < cli.retry_backoff_ms {
            return Err(ConfigError::MaxBackoffBelowBackoff);
        }
        if cli.timeout_seconds == 0 {
            return Err(ConfigError::ZeroTimeout);
        }
        Ok(
            Config {
                api_key,
                app_key,
                base_url,
                retry: RetryConfig {
                    max_retries: cli.retries,
                    backoff_ms: cli.retry_backoff_ms,
                    max_backoff_ms: cli.retry_max_backoff_ms,
                    retry_rate_limit: cli.retry_rate_limit,
                },
                timeout_seconds: cli.timeout_seconds,
            },
        )
    }
}

} // verus!
