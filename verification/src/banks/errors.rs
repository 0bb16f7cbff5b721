use vstd::prelude::*;

verus! {

/// Why an operation on a question bank was refused.
#[derive(Clone, Debug)]
pub enum QuestionBankError {
    NotFound(String),
    InvalidId,
    Forbidden,
    LockedByRunningQuiz,
    InvalidQuestionCountAfterBankUpdate,
    SnapshotNotFound,
}

} // verus!
