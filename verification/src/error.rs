//! Error taxonomy for the library.
//!
//! Local validation failures (batch bounds, missing configuration) are
//! distinguished from transport-level failures and from error responses the
//! remote service returns, so callers can branch on the cause.

use vstd::prelude::*;

verus! {

/// Every failure the library can report.
///
/// Transport and serialization failures carry the underlying message as a
/// plain string; the library never inspects it further.
#[derive(Debug, Clone, PartialEq, Eq)]
pub enum Error {
    /// The HTTP round trip itself failed (no valid response came back).
    Http(String),
    /// The service answered with a failure status code and a message.
    Api { status: u16, message: String },
    /// A response or request body could not be (de)serialized.
    Serialization(String),
    /// Missing or invalid local configuration (API key, base id).
    Config(String),
    /// A request URL could not be built.
    Url(String),
    /// An environment variable was missing or malformed.
    Env(String),
    /// A file could not be read (key files, dotenv files).
    Io(String),
    /// A batch mutation was empty or oversized; nothing was sent.
    InvalidBatch(String),
    /// The service asked the caller to slow down.
    RateLimit { retry_after_ms: u64 },
    /// No record satisfied a lookup that required one.
    RecordNotFound { record_id: String },
    /// The named table does not exist in the base.
    TableNotFound { table_name: String },
    /// The base does not exist or the caller may not read it.
    BaseNotFound { base_id: String },
    /// The credentials were rejected.
    Auth { message: String },
    /// Anything that fits no other variant.
    Other(String),
}

impl Error {
    /// Create a new configuration error.
    pub fn config(message: String) -> (r: Error)
        ensures
            r == Error::Config(message),
    {
        Error::Config(message)
    }

    /// Create a new API error from a response status and message.
    pub fn api(status: u16, message: String) -> (r: Error)
        ensures
            r == (Error::Api { status, message }),
    {
        Error::Api { status, message }
    }

    /// Create a new authentication error.
    pub fn auth(message: String) -> (r: Error)
        ensures
            r == (Error::Auth { message }),
    {
        Error::Auth { message }
    }

    /// Create a new rate limit error.
    pub fn rate_limit(retry_after_ms: u64) -> (r: Error)
        ensures
            r == (Error::RateLimit { retry_after_ms }),
    {
        Error::RateLimit { retry_after_ms }
    }

    /// Create a new record-not-found error.
    pub fn record_not_found(record_id: String) -> (r: Error)
        ensures
            r == (Error::RecordNotFound { record_id }),
    {
        Error::RecordNotFound { record_id }
    }

    /// Create a new table-not-found error.
    pub fn table_not_found(table_name: String) -> (r: Error)
        ensures
            r == (Error::TableNotFound { table_name }),
    {
        Error::TableNotFound { table_name }
    }

    /// Create a new base-not-found error.
    pub fn base_not_found(base_id: String) -> (r: Error)
        ensures
            r == (Error::BaseNotFound { base_id }),
    {
        Error::BaseNotFound { base_id }
    }
}

} // verus!
