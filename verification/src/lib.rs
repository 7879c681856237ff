//! Verified core of a PostgreSQL driver: SQL text building, query-string
//! rewriting, binary COPY framing, configuration validation and the decision
//! logic that drives connections, transactions and listeners.

pub mod arrays;
pub mod cache;
pub mod codecs;
pub mod config;
pub mod connection;
pub mod connection_pool;
pub mod copy_binary;
pub mod decode;
pub mod errors;
pub mod execute_many;
pub mod extra_types;
pub mod format_helpers;
pub mod lifecycle;
pub mod listener;
pub mod options;
pub mod parameters;
pub mod query;
pub mod records;
pub mod sql;
pub mod text;
