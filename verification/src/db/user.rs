use vstd::prelude::*;

use super::Error;

verus! {

/// A catalog row describing a user. Timestamps are seconds since the Unix
/// epoch; a set `deleted_at` marks the user as deleted.
#[derive(Debug, Clone)]
pub struct User {
    pub user_id: String,
    pub group_id: Option<i64>,
    pub created_at: i64,
    pub updated_at: i64,
    pub deleted_at: Option<i64>,
}

/// The fields needed to create a group; a missing description is stored as
/// the empty string.
#[derive(Debug, Clone)]
pub struct GroupCreateParameter {
    pub name: String,
    pub description: Option<String>,
}

/// A catalog row describing a group.
#[derive(Debug, Clone)]
pub struct Group {
    pub group_id: i64,
    pub name: String,
    pub description: String,
    pub created_at: i64,
    pub updated_at: i64,
}

impl GroupCreateParameter {
    /// The description to store: the given one, or the empty string.
    pub fn description_or_default(&self) -> (r: &str)
        ensures
            r@ == (match self.description {
                Some(d) => d@,
                None => Seq::<char>::empty(),
            }),
    {
        match &self.description {
            Some(d) => d.as_str(),
            None => {
                proof {
                    reveal_strlit("");
                    assert(""@ =~= Seq::<char>::empty());
                }
                ""
            },
        }
    }
}

/// The outcome of marking a user deleted: touching no row means no live
/// row carries the id, which is a not-found failure naming the user.
pub fn delete_user_outcome(affected_rows: u64, user_id: &str) -> (r: Result<(), Error>)
    ensures
        affected_rows > 0 ==> r is Ok,
        affected_rows == 0 ==> (r matches Err(e) && e matches Error::NotFound { entity, id }
            && entity@ == "user"@ && id@ == user_id@),
{
    if affected_rows == 0 {
        Err(Error::user_not_found(user_id))
    } else {
        Ok(())
    }
}

/// The decision taken on the result of a user lookup: a live row is handed
/// back, a deleted row is an error, and an absent row (`Ok(None)`) asks the
/// caller to initialize the user.
pub fn resolve_user_row(row: Option<User>) -> (r: Result<Option<User>, Error>)
    ensures
        r == (match row {
            None => Ok::<Option<User>, Error>(None),
            Some(user) => if user.deleted_at is Some {
                Err::<Option<User>, Error>(Error::UserDeleted)
            } else {
                Ok::<Option<User>, Error>(Some(user))
            },
        }),
{
    match row {
        None => Ok(None),
        Some(user) => if user.deleted_at.is_some() {
            Err(Error::UserDeleted)
        } else {
            Ok(Some(user))
        },
    }
}

} // verus!
