use vstd::prelude::*;

use crate::courses::entity::Course;
use crate::quizzes::entity::{CertaintyTable, Quiz, QuizId, QuizKind};
use crate::support::Timestamp;

verus! {

/// A quiz as shown to its staff, with its course.
#[derive(Clone, Debug)]
pub struct QuizView {
    pub id: QuizId,
    pub title: String,
    pub kind: QuizKind,
    pub join_code: String,
    pub question_count: i16,
    pub certainty_table: Option<CertaintyTable>,
    pub attempt_duration_minutes: i16,
    pub starts_at: Timestamp,
    pub closed_at: Option<Timestamp>,
    pub created_at: Timestamp,
    pub course: Course,
}

/// What someone about to join a quiz sees of it.
#[derive(Clone, Debug)]
pub struct JoinQuizPreviewView {
    pub quiz_id: QuizId,
    pub title: String,
    pub kind: QuizKind,
    pub starts_at: Timestamp,
}

/// The staff's view of a quiz of a course.
pub open spec fn quiz_view_of(quiz: Quiz, course: Course) -> QuizView {
    QuizView {
        id: quiz.id,
        title: quiz.title,
        kind: quiz.kind,
        join_code: quiz.join_code,
        question_count: quiz.question_count,
        certainty_table: quiz.certainty_table,
        attempt_duration_minutes: quiz.attempt_duration_minutes,
        starts_at: quiz.starts_at,
        closed_at: quiz.closed_at,
        created_at: quiz.created_at,
        course,
    }
}

impl QuizView {
    /// The staff's view of a quiz of a course.
    pub fn from(value: (Quiz, Course)) -> (r: QuizView)
        ensures
            r == quiz_view_of(value.0, value.1),
            r.id == value.0.id,
            r.title == value.0.title,
            r.kind == value.0.kind,
            r.join_code == value.0.join_code,
            r.question_count == value.0.question_count,
            r.certainty_table == value.0.certainty_table,
            r.attempt_duration_minutes == value.0.attempt_duration_minutes,
            r.starts_at == value.0.starts_at,
            r.closed_at == value.0.closed_at,
            r.created_at == value.0.created_at,
            r.course == value.1,
    {
        let (quiz, course) = value;
        QuizView {
            id: quiz.id,
            title: quiz.title,
            kind: quiz.kind,
            join_code: quiz.join_code,
            question_count: quiz.question_count,
            certainty_table: quiz.certainty_table,
            attempt_duration_minutes: quiz.attempt_duration_minutes,
            starts_at: quiz.starts_at,
            closed_at: quiz.closed_at,
            created_at: quiz.created_at,
            course,
        }
    }
}

impl JoinQuizPreviewView {
    /// The preview of a quiz.
    pub fn from(quiz: &Quiz) -> (r: JoinQuizPreviewView)
        ensures
            r.quiz_id == quiz.id,
            r.title == quiz.title,
            r.kind == quiz.kind,
            r.starts_at == quiz.starts_at,
    {
        JoinQuizPreviewView {
            quiz_id: quiz.id,
            title: quiz.title.clone(),
            kind: quiz.kind,
            starts_at: quiz.starts_at,
        }
    }
}

/// The staff's view of a quiz shows the quiz's own fields, each from the
/// field of the same name (its start is its start, not its creation), and
/// the course it is given.
pub proof fn lemma_quiz_view_shows_the_quiz(quiz: Quiz, course: Course)
    ensures
        quiz_view_of(quiz, course).id == quiz.id,
        quiz_view_of(quiz, course).title == quiz.title,
        quiz_view_of(quiz, course).kind == quiz.kind,
        quiz_view_of(quiz, course).join_code == quiz.join_code,
        quiz_view_of(quiz, course).question_count == quiz.question_count,
        quiz_view_of(quiz, course).certainty_table == quiz.certainty_table,
        quiz_view_of(quiz, course).attempt_duration_minutes == quiz.attempt_duration_minutes,
        quiz_view_of(quiz, course).starts_at == quiz.starts_at,
        quiz_view_of(quiz, course).closed_at == quiz.closed_at,
        quiz_view_of(quiz, course).created_at == quiz.created_at,
        quiz_view_of(quiz, course).course == course,
{
}

} // verus!
