//! Bounded-retry fetching of remote text and JSON documents.

pub mod backoff;
pub mod decimal;
pub mod error;
pub mod fetcher;
pub mod json;
pub mod machine;
pub mod payload;
pub mod status;
pub mod trace;
