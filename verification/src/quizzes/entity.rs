use vstd::prelude::*;

use crate::courses::entity::CourseId;
use crate::support::Timestamp;

verus! {

/// Identifier of a quiz.
pub type QuizId = u128;

/// How a quiz is graded.
#[derive(Clone, Copy, Debug, PartialEq, Eq, Structural)]
pub enum QuizKind {
    Traditional,
    Certainty,
}

/// How sure a student declares to be of an answer.
#[derive(Clone, Copy, Debug, PartialEq, Eq, Structural)]
pub enum CertaintyLevel {
    Low,
    Medium,
    High,
}

/// Points awarded at one certainty level, for a correct and for an
/// incorrect answer.
#[derive(Clone, Copy, Debug, PartialEq, Eq, Structural)]
pub struct CertaintyScore {
    pub correct: i16,
    pub incorrect: i16,
}

/// The points of a certainty quiz, per certainty level.
#[derive(Clone, Copy, Debug, PartialEq, Eq, Structural)]
pub struct CertaintyTable {
    pub low: CertaintyScore,
    pub medium: CertaintyScore,
    pub high: CertaintyScore,
}

impl CertaintyTable {
    /// The row of the table for a certainty level.
    pub open spec fn row(self, level: CertaintyLevel) -> CertaintyScore {
        match level {
            CertaintyLevel::Low => self.low,
            CertaintyLevel::Medium => self.medium,
            CertaintyLevel::High => self.high,
        }
    }

    /// Executable form of `row`.
    pub fn score_for(&self, level: CertaintyLevel) -> (s: CertaintyScore)
        ensures
            s == self.row(level),
    {
        match level {
            CertaintyLevel::Low => self.low,
            CertaintyLevel::Medium => self.medium,
            CertaintyLevel::High => self.high,
        }
    }
}

/// A quiz of a course.
#[derive(Clone, Debug)]
pub struct Quiz {
    pub id: QuizId,
    pub course_id: CourseId,
    pub snapshot_id: u128,
    pub title: String,
    pub kind: QuizKind,
    pub join_code: String,
    pub question_count: i16,
    pub certainty_table: Option<CertaintyTable>,
    pub attempt_duration_minutes: i16,
    pub starts_at: Timestamp,
    pub closed_at: Option<Timestamp>,
    pub created_at: Timestamp,
    pub deleted_at: Option<Timestamp>,
}

impl Quiz {
    /// The key under which quizzes are stored.
    pub fn key_name() -> (r: &'static str)
        ensures
            r@ == "quiz"@,
    {
        proof {
            reveal_strlit("quiz");
        }
        "quiz"
    }
}

} // verus!
