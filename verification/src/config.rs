//! Client configuration.
//!
//! A `Config` is a plain value: the credential, the endpoint the requests go
//! to, and a few transport knobs. Loading it from the environment or from
//! files is left to the embedding program; the library only holds and
//! transforms the value.

use vstd::prelude::*;

verus! {

/// Configuration for a client.
#[derive(Debug, Clone)]
pub struct Config {
    /// Personal access token or API key.
    pub api_key: String,
    /// Base URL all request paths are appended to.
    pub endpoint_url: String,
    /// Timeout the transport should apply to each HTTP request, in seconds.
    pub timeout_seconds: u64,
    /// Retry budget a wrapping retry policy may use; this library itself
    /// never retries.
    pub max_retries: u32,
    /// Whether the embedding program should log progress.
    pub verbose: bool,
}

/// Whether two configurations hold the same values.
pub open spec fn config_eq(a: Config, b: Config) -> bool {
    &&& a.api_key@ == b.api_key@
    &&& a.endpoint_url@ == b.endpoint_url@
    &&& a.timeout_seconds == b.timeout_seconds
    &&& a.max_retries == b.max_retries
    &&& a.verbose == b.verbose
}

impl Config {
    /// A copy holding the same values.
    pub fn duplicate(&self) -> (r: Config)
        ensures
            config_eq(r, *self),
    {
        Config {
            api_key: self.api_key.clone(),
            endpoint_url: self.endpoint_url.clone(),
            timeout_seconds: self.timeout_seconds,
            max_retries: self.max_retries,
            verbose: self.verbose,
        }
    }

    /// Create a new configuration with the provided API key and the default
    /// endpoint and transport settings.
    pub fn new(api_key: String) -> (r: Config)
        ensures
            r.api_key == api_key,
            r.endpoint_url@ == "https://api.airtable.com/v0"@,
            r.timeout_seconds == 30u64,
            r.max_retries == 3u32,
            r.verbose == false,
    {
        Config {
            api_key,
            endpoint_url: String::from_str("https://api.airtable.com/v0"),
            timeout_seconds: 30,
            max_retries: 3,
            verbose: false,
        }
    }

    /// Set verbose logging.
    pub fn with_verbose(self, verbose: bool) -> (r: Config)
        ensures
            r == (Config { verbose, ..self }),
    {
        Config { verbose, ..self }
    }

    /// Set a custom endpoint URL.
    pub fn with_endpoint_url(self, url: String) -> (r: Config)
        ensures
            r == (Config { endpoint_url: url, ..self }),
    {
        Config { endpoint_url: url, ..self }
    }

    /// Set the per-request timeout.
    pub fn with_timeout(self, timeout_seconds: u64) -> (r: Config)
        ensures
            r == (Config { timeout_seconds, ..self }),
    {
        Config { timeout_seconds, ..self }
    }

    /// Set the retry budget.
    pub fn with_max_retries(self, max_retries: u32) -> (r: Config)
        ensures
            r == (Config { max_retries, ..self }),
    {
        Config { max_retries, ..self }
    }
}

} // verus!
