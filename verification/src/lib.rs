//! Engine for reassembling a live chat replay from a paginated,
//! token-chained API.
//!
//! The library holds the verified core: the continuation-token transform,
//! page-response parsing and classification, the sequential pagination
//! state machine, the order-preserving aggregation of batches, and the
//! progress computation. Network transport and persistence live outside
//! the library and hand it plain values.

pub mod action;
pub mod aggregator;
pub mod digits;
pub mod driver;
pub mod fetcher;
pub mod json;
pub mod progress;
pub mod token;
pub mod video_details;
