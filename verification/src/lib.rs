//! A client-side adapter for submitting transaction batches to a Splinter
//! node's scabbard REST endpoints and polling their statuses.
//!
//! The adapter resolves a compound `<circuit_id>::<service_id>` address,
//! builds the REST paths and query strings for the two operations, and
//! normalizes the remote status payload into a backend-agnostic shape.
//! The HTTP transport itself is left to the caller.

pub mod address;
pub mod client;
pub mod error;
pub mod status;
pub mod strutil;
