//! The gateway's caller-facing layer: scope-guarded operations, the error
//! normalizer, and the views of catalog rows handed to callers.

pub mod auth;
pub mod error;
pub mod keys;
pub mod questions;
pub mod schema;
pub mod sql_executor;
pub mod user;
