use vstd::prelude::*;

use crate::courses::entity::CourseId;
use crate::quizzes::entity::{CertaintyLevel, QuizId};
use crate::support::Timestamp;
use crate::users::UserId;

verus! {

/// Identifier of an attempt.
pub type AttemptId = u128;

/// A student's attempt at a quiz. Its grade, a floating-point number, is
/// kept beside it by the server.
#[derive(Clone, Debug)]
pub struct Attempt {
    pub id: AttemptId,
    pub student_id: UserId,
    pub quiz_id: QuizId,
    pub question_order: Vec<u128>,
    pub score: Option<i16>,
    pub started_at: Timestamp,
    pub expires_at: Timestamp,
    pub submitted_at: Option<Timestamp>,
    pub results_viewed_at: Option<Timestamp>,
    pub deleted_at: Option<Timestamp>,
}

/// The answer given to one question of an attempt.
#[derive(Clone, Copy, Debug, PartialEq, Eq, Structural)]
pub struct AttemptAnswer {
    pub attempt_id: AttemptId,
    pub question_id: u128,
    pub answer_index: i16,
    pub certainty_level: Option<CertaintyLevel>,
}

/// Which attempts to list.
#[derive(Clone, Copy, Debug, PartialEq, Eq, Structural)]
pub struct AttemptFilter {
    pub course_id: CourseId,
    pub quiz_id: QuizId,
    pub student_id: Option<UserId>,
}

impl Attempt {
    /// The key under which attempts are stored.
    pub fn key_name() -> (r: &'static str)
        ensures
            r@ == "attempt"@,
    {
        proof {
            reveal_strlit("attempt");
        }
        "attempt"
    }
}

} // verus!
