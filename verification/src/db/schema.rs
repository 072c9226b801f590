use vstd::prelude::*;

verus! {

/// A catalog row describing a practice schema. Timestamps are seconds since
/// the Unix epoch.
#[derive(Debug, Clone)]
pub struct Schema {
    pub schema_id: String,
    pub picture: Option<String>,
    pub description: String,
    pub created_at: i64,
    pub updated_at: i64,
}

} // verus!
