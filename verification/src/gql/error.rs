//! The error normalizer: every internal failure is mapped to one of a small
//! set of stable machine-readable codes with a human-readable title and
//! details. A wrapped cause may be retained for logs; it is never part of
//! the user-facing triple.

use vstd::prelude::*;

use crate::db;
use crate::gql::auth::AuthError;

verus! {

/// The stable machine-readable code of a normalized error.
#[derive(Debug, Clone, Copy, PartialEq, Eq, Structural)]
pub enum ErrorCode {
    NotFound,
    InternalError,
    Unauthorized,
    InvalidJwtToken,
    InvalidQuery,
}

impl ErrorCode {
    /// The wire spelling of the code.
    pub open spec fn spec_str(self) -> Seq<char> {
        match self {
            ErrorCode::NotFound => "NOT_FOUND"@,
            ErrorCode::InternalError => "INTERNAL_ERROR"@,
            ErrorCode::Unauthorized => "UNAUTHORIZED"@,
            ErrorCode::InvalidJwtToken => "INVALID_JWT_TOKEN"@,
            ErrorCode::InvalidQuery => "INVALID_QUERY"@,
        }
    }

    /// The wire spelling of the code.
    pub fn as_str(&self) -> (r: &str)
        ensures
            r@ == self.spec_str(),
    {
        match self {
            ErrorCode::NotFound => "NOT_FOUND",
            ErrorCode::InternalError => "INTERNAL_ERROR",
            ErrorCode::Unauthorized => "UNAUTHORIZED",
            ErrorCode::InvalidJwtToken => "INVALID_JWT_TOKEN",
            ErrorCode::InvalidQuery => "INVALID_QUERY",
        }
    }
}

/// A normalized error: the user-facing triple of code, title and details,
/// and an optional cause kept only for server-side logs.
#[derive(Debug)]
pub struct Error {
    pub code: ErrorCode,
    pub title: String,
    pub details: String,
    pub error: Option<String>,
}

impl Error {
    /// Normalization of a catalog failure: a missed lookup keeps the entity
    /// name and id in its details; every other failure collapses to a
    /// generic internal error. In every case a description of the cause is
    /// retained in the log-only field.
    pub fn of_db(e: db::Error) -> (r: Error)
        ensures
            e matches db::Error::NotFound { entity, id } ==> {
                &&& r.code == ErrorCode::NotFound
                &&& r.title@ == "No resource"@
                &&& r.details@ == entity@ + " with id "@ + id@ + " not found"@
                &&& (r.error matches Some(c) && c@ == entity@ + " not found: "@ + id@)
            },
            !(e is NotFound) ==> {
                &&& r.code == ErrorCode::InternalError
                &&& r.title@ == "Internal error"@
                &&& r.details@ == "An internal error occurred"@
            },
            e matches db::Error::DatabaseError(cause) ==> (r.error matches Some(c) && c@
                == cause@),
            r.error is Some,
    {
        match e {
            db::Error::NotFound { entity, id } => {
                let cause = entity.clone().concat(" not found: ").concat(id.as_str());
                let details = entity.concat(" with id ").concat(id.as_str()).concat(" not found");
                Error {
                    code: ErrorCode::NotFound,
                    title: "No resource".to_owned(),
                    details,
                    error: Some(cause),
                }
            },
            db::Error::DatabaseError(cause) => Error {
                code: ErrorCode::InternalError,
                title: "Internal error".to_owned(),
                details: "An internal error occurred".to_owned(),
                error: Some(cause),
            },
            db::Error::MissingDatabaseUrl => Error {
                code: ErrorCode::InternalError,
                title: "Internal error".to_owned(),
                details: "An internal error occurred".to_owned(),
                error: Some("missing DATABASE_URL environment variable".to_owned()),
            },
            db::Error::UserDeleted => Error {
                code: ErrorCode::InternalError,
                title: "Internal error".to_owned(),
                details: "An internal error occurred".to_owned(),
                error: Some("user is deleted".to_owned()),
            },
            db::Error::NotPositiveID => Error {
                code: ErrorCode::InternalError,
                title: "Internal error".to_owned(),
                details: "An internal error occurred".to_owned(),
                error: Some("id must be a positive integer".to_owned()),
            },
        }
    }

    /// Normalization of a credential failure. Every failure — malformed
    /// header, no usable key, signature or claim rejected, key set
    /// unreachable — carries the same code, title and details, so nothing
    /// about which check failed reaches the caller; the underlying cause is
    /// kept for logs only.
    pub fn of_auth(e: AuthError) -> (r: Error)
        ensures
            r.code == ErrorCode::InvalidJwtToken,
            r.title@ == "Invalid token"@,
            r.details@ == "The provided credential could not be validated."@,
            r.error == (match e {
                AuthError::GetJwtSetFailed(c) => Some(c),
                AuthError::MissingJwkInOidc => None::<String>,
                AuthError::DecodeJwtHeader(c) => Some(c),
                AuthError::DecodeJwt(c) => Some(c),
            }),
    {
        let cause = match e {
            AuthError::GetJwtSetFailed(c) => Some(c),
            AuthError::MissingJwkInOidc => None,
            AuthError::DecodeJwtHeader(c) => Some(c),
            AuthError::DecodeJwt(c) => Some(c),
        };
        Error {
            code: ErrorCode::InvalidJwtToken,
            title: "Invalid token".to_owned(),
            details: "The provided credential could not be validated.".to_owned(),
            error: cause,
        }
    }
}

} // verus!
