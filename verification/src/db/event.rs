use vstd::prelude::*;

verus! {

/// The lifecycle state of a recorded attempt at a question.
#[derive(Debug, Clone, Copy, PartialEq, Eq, Structural)]
pub enum AttemptStatus {
    Pending,
    Passed,
    Failed,
}

impl AttemptStatus {
    /// The spelling under which the status is stored.
    pub open spec fn spec_str(self) -> Seq<char> {
        match self {
            AttemptStatus::Pending => "pending"@,
            AttemptStatus::Passed => "passed"@,
            AttemptStatus::Failed => "failed"@,
        }
    }

    /// The spelling under which the status is stored.
    pub fn as_str(&self) -> (r: &str)
        ensures
            r@ == self.spec_str(),
    {
        match self {
            AttemptStatus::Pending => "pending",
            AttemptStatus::Passed => "passed",
            AttemptStatus::Failed => "failed",
        }
    }
}

} // verus!
