use vstd::prelude::*;

use crate::attempts::entity::AttemptId;
use crate::quizzes::entity::QuizId;

verus! {

/// Why an operation on an attempt was refused.
#[derive(Clone, Copy, Debug, PartialEq, Eq, Structural)]
pub enum AttemptError {
    QuizNotStarted,
    QuizEnded,
    AlreadyAttempted,
    NotFound(AttemptId),
    Forbidden,
    Expired,
    AlreadySubmitted,
    QuestionNotInAttempt(u128),
    ResultsNotAvailable,
    InvalidAnswerIndex,
    CertaintyLevelRequired,
    CertaintyLevelNotAllowed,
    NotFoundForQuiz,
    NotSubmitted,
    ResultAlreadyViewed,
    ActiveAttemptNotFound(QuizId),
}

} // verus!
