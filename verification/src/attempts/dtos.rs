use vstd::prelude::*;

use crate::attempts::entity::{Attempt, AttemptId};
use crate::quizzes::entity::{CertaintyLevel, QuizId};
use crate::support::Timestamp;

verus! {

/// Whether an attempt is still open or has been handed in.
#[derive(Clone, Copy, Debug, PartialEq, Eq, Structural)]
pub enum AttemptStatus {
    InProgress,
    Submitted,
}

/// What a student sees of an attempt.
#[derive(Clone, Copy, Debug, PartialEq, Eq, Structural)]
pub struct AttemptSnapshotView {
    pub attempt_id: AttemptId,
    pub quiz_id: QuizId,
    pub started_at: Timestamp,
    pub expires_at: Timestamp,
    pub submitted_at: Option<Timestamp>,
    pub status: AttemptStatus,
}

/// An answer sent for one question.
#[derive(Clone, Copy, Debug, PartialEq, Eq, Structural)]
pub struct SaveAttemptAnswerDto {
    pub answer_index: i16,
    pub certainty_level: Option<CertaintyLevel>,
}

/// The graded result of one question of an attempt.
#[derive(Clone, Debug)]
pub struct AttemptQuestionResultView {
    pub question_id: u128,
    pub question: String,
    pub options: Vec<String>,
    pub images: Vec<String>,
    pub answer_index: Option<i16>,
    pub correct_answer_index: i16,
    pub certainty_level: Option<CertaintyLevel>,
    pub is_correct: bool,
    pub awarded_points: i16,
}

/// The status of an attempt: submitted exactly when it has a submission
/// time.
pub open spec fn status_of(submitted_at: Option<Timestamp>) -> AttemptStatus {
    if submitted_at is Some {
        AttemptStatus::Submitted
    } else {
        AttemptStatus::InProgress
    }
}

impl SaveAttemptAnswerDto {
    /// Checks the answer: its index must not be negative.
    pub fn validate(&self) -> (r: Result<(), ValidationFailure>)
        ensures
            r is Ok <==> self.answer_index >= 0,
            r matches Err(e) ==> e == ValidationFailure::NegativeAnswerIndex,
    {
        if self.answer_index < 0 {
            Err(ValidationFailure::NegativeAnswerIndex)
        } else {
            Ok(())
        }
    }
}

/// Why an answer was refused by `SaveAttemptAnswerDto::validate`.
#[derive(Clone, Copy, Debug, PartialEq, Eq, Structural)]
pub enum ValidationFailure {
    NegativeAnswerIndex,
}

impl AttemptSnapshotView {
    /// The view of an attempt.
    pub fn from(value: &Attempt) -> (r: AttemptSnapshotView)
        ensures
            r.attempt_id == value.id,
            r.quiz_id == value.quiz_id,
            r.started_at == value.started_at,
            r.expires_at == value.expires_at,
            r.submitted_at == value.submitted_at,
            r.status == status_of(value.submitted_at),
    {
        AttemptSnapshotView {
            attempt_id: value.id,
            quiz_id: value.quiz_id,
            started_at: value.started_at,
            expires_at: value.expires_at,
            submitted_at: value.submitted_at,
            status: if value.submitted_at.is_some() {
                AttemptStatus::Submitted
            } else {
                AttemptStatus::InProgress
            },
        }
    }
}

} // verus!
