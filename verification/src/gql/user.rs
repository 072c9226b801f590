//! The caller-facing views of users and groups.

use vstd::prelude::*;

use crate::db;

verus! {

/// The caller-facing view of a user; the deletion mark of the catalog row
/// is not exposed. Timestamps are seconds since the Unix epoch.
#[derive(Debug)]
pub struct User {
    pub user_id: String,
    pub group_id: Option<i64>,
    pub created_at: i64,
    pub updated_at: i64,
}

impl From<db::User> for User {
    fn from(user: db::User) -> (r: Self) {
        User {
            user_id: user.user_id,
            group_id: user.group_id,
            created_at: user.created_at,
            updated_at: user.updated_at,
        }
    }
}

impl vstd::std_specs::convert::FromSpecImpl<db::User> for User {
    open spec fn obeys_from_spec() -> bool {
        true
    }

    open spec fn from_spec(user: db::User) -> Self {
        User {
            user_id: user.user_id,
            group_id: user.group_id,
            created_at: user.created_at,
            updated_at: user.updated_at,
        }
    }
}

/// The caller-facing view of a group. Timestamps are seconds since the
/// Unix epoch.
#[derive(Debug)]
pub struct Group {
    pub group_id: i64,
    pub name: String,
    pub description: String,
    pub created_at: i64,
    pub updated_at: i64,
}

impl From<db::Group> for Group {
    fn from(group: db::Group) -> (r: Self) {
        Group {
            group_id: group.group_id,
            name: group.name,
            description: group.description,
            created_at: group.created_at,
            updated_at: group.updated_at,
        }
    }
}

impl vstd::std_specs::convert::FromSpecImpl<db::Group> for Group {
    open spec fn obeys_from_spec() -> bool {
        true
    }

    open spec fn from_spec(group: db::Group) -> Self {
        Group {
            group_id: group.group_id,
            name: group.name,
            description: group.description,
            created_at: group.created_at,
            updated_at: group.updated_at,
        }
    }
}

} // verus!
