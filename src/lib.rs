//! Resolution core of a local DNS resolver: record matching with wildcard
//! precedence, answer synthesis, record validation, upstream failover and the
//! per-query decision pipeline.

pub mod text;
pub mod record;
pub mod cache;
pub mod answer;
pub mod validate;
pub mod upstream;
pub mod logger;
pub mod pipeline;
pub mod config;
pub mod web;
pub mod migration;
