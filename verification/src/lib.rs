//! A scoped authentication and remote query-execution gateway.
//!
//! The crate validates bearer credentials against a cached, rotating set of
//! public signing keys, enforces per-operation scope checks, and classifies
//! the outcomes of submitting untrusted SQL to an external execution service.
//! Network and database round trips live outside this crate; every decision
//! taken on their results is specified and verified here.

pub mod db;
pub mod gql;
pub mod strutil;
