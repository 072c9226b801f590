//! The caller-facing view of questions.

use vstd::prelude::*;

use crate::db;

verus! {

/// How hard a question is rated, as shown to callers.
#[derive(Debug, Clone, Copy, PartialEq, Eq, Structural)]
pub enum Difficulty {
    Easy,
    Medium,
    Hard,
}

/// The caller-facing view of a catalog question. Timestamps are seconds
/// since the Unix epoch.
#[derive(Debug)]
pub struct Question {
    pub id: i64,
    pub schema_id: Option<String>,
    pub question_type: String,
    pub difficulty: Difficulty,
    pub title: String,
    pub description: String,
    pub created_at: i64,
    pub updated_at: i64,
}

impl From<db::Difficulty> for Difficulty {
    fn from(difficulty: db::Difficulty) -> (r: Self) {
        match difficulty {
            db::Difficulty::Easy => Self::Easy,
            db::Difficulty::Medium => Self::Medium,
            db::Difficulty::Hard => Self::Hard,
        }
    }
}

impl vstd::std_specs::convert::FromSpecImpl<db::Difficulty> for Difficulty {
    open spec fn obeys_from_spec() -> bool {
        true
    }

    open spec fn from_spec(difficulty: db::Difficulty) -> Self {
        match difficulty {
            db::Difficulty::Easy => Difficulty::Easy,
            db::Difficulty::Medium => Difficulty::Medium,
            db::Difficulty::Hard => Difficulty::Hard,
        }
    }
}

impl From<db::Question> for Question {
    fn from(question: db::Question) -> (r: Self) {
        Question {
            id: question.question_id,
            schema_id: question.schema_id,
            question_type: question.question_type,
            difficulty: Difficulty::from(question.difficulty),
            title: question.title,
            description: question.description,
            created_at: question.created_at,
            updated_at: question.updated_at,
        }
    }
}

impl vstd::std_specs::convert::FromSpecImpl<db::Question> for Question {
    open spec fn obeys_from_spec() -> bool {
        true
    }

    open spec fn from_spec(question: db::Question) -> Self {
        Question {
            id: question.question_id,
            schema_id: question.schema_id,
            question_type: question.question_type,
            difficulty: <Difficulty as vstd::std_specs::convert::FromSpec<
                db::Difficulty,
            >>::from_spec(question.difficulty),
            title: question.title,
            description: question.description,
            created_at: question.created_at,
            updated_at: question.updated_at,
        }
    }
}

} // verus!
