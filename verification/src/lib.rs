//! Client-side delivery pipeline for a log-ingestion service: a wire encoder
//! for grouped log records, a request signer, and a batching reporter that
//! accumulates records per metadata key and drains them under a size cap.

pub use crate::builder::SlsTracingBuilder;
pub use crate::client::{SlsClient, SlsClientBuilder, SlsClientBuilderError, SlsClientError};
pub use crate::proto::{KeyValue, Log, LogGroup, LogGroupMetadata};
pub use crate::reporter::Reporter;

pub mod builder;
pub mod client;
pub mod event;
pub mod format;
pub mod headers;
pub mod proto;
pub mod reporter;
pub mod signer;
pub mod tags;
pub mod time;
