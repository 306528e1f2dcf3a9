//! Resolution of operator-supplied identifiers (a topic name and a shard
//! index) into the durable identifiers held by a catalog of record, together
//! with the retry policy used while the catalog is transiently unreachable,
//! and helpers that pick a catalog error message apart into its parts.

pub mod backoff;
pub mod catalog;
pub mod config;
pub mod error;
pub mod nuerror;
pub mod resolver;
pub mod retry;
mod shell;
mod textparse;
