//! Client-side protocol layer for a dataflow gateway: base-URL handling, a
//! server-push event decoder, wire data contracts and their mapping to the
//! shapes a dashboard displays, and the small state machines around them.

pub mod text;
pub mod address;
pub mod error;
pub mod protocol;
pub mod interface;
pub mod mapping;
pub mod sse;
pub mod metrics;
pub mod dashboard;
pub mod views;
pub mod command_executor;
