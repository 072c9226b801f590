//! Data model of the catalog and the failures of its lookups.
//!
//! The lookups themselves are plain CRUD against external storage and stay
//! outside this crate; what stands here is the data they return, the
//! validation applied before a lookup, and the classification of its result.

pub mod cursor;
pub mod event;
pub mod question;
pub mod schema;
pub mod user;

pub use cursor::Cursor;
pub use event::AttemptStatus;
pub use question::{Difficulty, Question};
pub use schema::Schema;
pub use user::{Group, GroupCreateParameter, User};

use vstd::prelude::*;

use crate::strutil::{dec_int, dec_string_i64};

verus! {

/// A failure of a catalog operation.
#[derive(Debug)]
pub enum Error {
    /// The database connection string is absent from the environment.
    MissingDatabaseUrl,
    /// The storage backend failed; the description is kept for logs.
    DatabaseError(String),
    /// No live row of the named entity carries the given id.
    NotFound { entity: String, id: String },
    /// The requested user exists but was marked deleted.
    UserDeleted,
    /// An id was negative where only non-negative ids are stored.
    NotPositiveID,
}

/// The decision taken on the result of a lookup by id: a fetched row is
/// the result, and an absent row is the given not-found failure.
pub fn found_or<T>(row: Option<T>, missing: Error) -> (r: Result<T, Error>)
    ensures
        r == (match row {
            Some(v) => Ok::<T, Error>(v),
            None => Err::<T, Error>(missing),
        }),
{
    match row {
        Some(v) => Ok(v),
        None => Err(missing),
    }
}

impl Error {
    /// The not-found failure for a question id, carrying the id in decimal.
    pub fn question_not_found(question_id: i64) -> (r: Error)
        ensures
            r matches Error::NotFound { entity, id } && entity@ == "question"@ && id@ == dec_int(
                question_id as int,
            ),
    {
        Error::NotFound { entity: "question".to_owned(), id: dec_string_i64(question_id) }
    }

    /// The not-found failure for a schema id.
    pub fn schema_not_found(schema_id: &str) -> (r: Error)
        ensures
            r matches Error::NotFound { entity, id } && entity@ == "schema"@ && id@ == schema_id@,
    {
        Error::NotFound { entity: "schema".to_owned(), id: schema_id.to_owned() }
    }

    /// The not-found failure for a user id.
    pub fn user_not_found(user_id: &str) -> (r: Error)
        ensures
            r matches Error::NotFound { entity, id } && entity@ == "user"@ && id@ == user_id@,
    {
        Error::NotFound { entity: "user".to_owned(), id: user_id.to_owned() }
    }

    /// The not-found failure for a group id, carrying the id in decimal.
    pub fn group_not_found(group_id: i64) -> (r: Error)
        ensures
            r matches Error::NotFound { entity, id } && entity@ == "group"@ && id@ == dec_int(
                group_id as int,
            ),
    {
        Error::NotFound { entity: "group".to_owned(), id: dec_string_i64(group_id) }
    }
}

} // verus!
