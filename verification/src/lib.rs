//! Client-side engine for a tabular-records REST service: query building,
//! page-by-page result assembly, batch mutation validation, and a
//! post-processing view pipeline, with machine-checked contracts.
//!
//! The engine decides everything a client must decide — which request to
//! send, how to fold pages into a result set, when a batch is invalid, how a
//! view reshapes records — and leaves the HTTP round trips themselves to the
//! embedding program.

pub mod client;
pub mod config;
pub mod digits;
pub mod error;
pub mod fields;
pub mod models;
pub mod paginate;
pub mod query;
pub mod request;
pub mod value;
pub mod views;

pub use client::BaseHandle;
pub use client::Client;
pub use client::TableHandle;
pub use config::Config;
pub use error::Error;
pub use fields::FieldMap;
pub use models::BaseInfo;
pub use models::BaseSchema;
pub use models::BasesResponse;
pub use models::ListRecordsResponse;
pub use models::Record;
pub use models::RecordMutation;
pub use models::TableSchema;
pub use models::UserInfo;
pub use value::FieldValue;
