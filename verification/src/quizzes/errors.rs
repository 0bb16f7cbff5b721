use vstd::prelude::*;

verus! {

/// Why an operation on a quiz was refused.
#[derive(Clone, Debug)]
pub enum QuizError {
    NotFound(String),
    InvalidId,
    InvalidCode,
    Forbidden,
    OnlyOwnerCanManageCollaborators,
    CollaboratorAlreadyExists,
    CollaboratorNotFound,
    InvalidCollaboratorRole,
    Closed,
    InvalidBanksForCourse,
    InvalidQuestionCount,
    InvalidStartTime,
    QuestionNotFound(String),
}

} // verus!
