//! Verified core of a `SQLite` storage adapter for an authentication framework.
//!
//! The library holds what the adapter decides and computes: its configuration,
//! the mapping of storage failures onto the framework's database errors, the
//! table rows and the entities handed to the framework, and every conversion
//! between the two (timestamps, identifiers, JSON metadata, invitation states,
//! passkey counters). The connection, the queries and the asynchronous plumbing
//! live around it.

pub mod config;
pub mod conversions;
pub mod error;
pub mod ids;
pub mod json;
pub mod models;
pub mod time;
pub mod types;

pub use config::PoolConfig;
pub use error::AdapterError;
