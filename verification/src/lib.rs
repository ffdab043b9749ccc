//! Client-side engine for chunked transfers to and from an object store.
//!
//! The crate holds the decisions of a multipart upload and of a streaming
//! download as verified functions: how a file is cut into parts, how
//! progress is aggregated and throttled, how a multipart session moves from
//! initiation to completion, and how requests are admitted. Network and file
//! access are left to the caller, which performs the actions these functions
//! hand out and reports back what happened.

pub mod chunk;
pub mod client;
pub mod download;
pub mod error;
pub mod lifecycle;
pub mod params;
pub mod progress;
pub mod request;
pub mod upload;

pub use params::S3Params;
