//! Serving side of an optimistic block-payload relay: a bounded
//! least-recently-used cache of signed block bids, an ingestion step that
//! feeds it from a lossy broadcast stream, and an authenticated request
//! handler that serves cached payloads in two wire encodings.

pub mod bytes;
pub mod types;
pub mod cache;
pub mod binary;
pub mod text;
pub mod metrics;
pub mod handler;
pub mod ingest;
