use vstd::prelude::*;

use super::Error;

verus! {

/// How hard a question is rated.
#[derive(Debug, Clone, Copy, PartialEq, Eq, Structural)]
pub enum Difficulty {
    Easy,
    Medium,
    Hard,
}

/// A catalog row describing a practice question. Timestamps are seconds
/// since the Unix epoch.
#[derive(Debug, Clone)]
pub struct Question {
    pub question_id: i64,
    pub schema_id: Option<String>,
    pub question_type: String,
    pub difficulty: Difficulty,
    pub title: String,
    pub description: String,
    pub created_at: i64,
    pub updated_at: i64,
}

/// Validation applied to a question id before any lookup runs: negative ids
/// are rejected without touching storage.
pub fn check_question_id(question_id: i64) -> (r: Result<(), Error>)
    ensures
        r is Ok <==> question_id >= 0,
        r is Err ==> r == Err::<(), Error>(Error::NotPositiveID),
{
    if question_id < 0 {
        Err(Error::NotPositiveID)
    } else {
        Ok(())
    }
}

} // verus!
