//! The caller-facing view of schemas.

use vstd::prelude::*;

use crate::db;

verus! {

/// The caller-facing view of a catalog schema. Timestamps are seconds
/// since the Unix epoch.
#[derive(Debug)]
pub struct Schema {
    pub id: String,
    pub picture: Option<String>,
    pub description: String,
    pub created_at: i64,
    pub updated_at: i64,
}

impl From<db::Schema> for Schema {
    fn from(schema: db::Schema) -> (r: Self) {
        Schema {
            id: schema.schema_id,
            picture: schema.picture,
            description: schema.description,
            created_at: schema.created_at,
            updated_at: schema.updated_at,
        }
    }
}

impl vstd::std_specs::convert::FromSpecImpl<db::Schema> for Schema {
    open spec fn obeys_from_spec() -> bool {
        true
    }

    open spec fn from_spec(schema: db::Schema) -> Self {
        Schema {
            id: schema.schema_id,
            picture: schema.picture,
            description: schema.description,
            created_at: schema.created_at,
            updated_at: schema.updated_at,
        }
    }
}

} // verus!
