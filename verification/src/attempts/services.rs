use vstd::prelude::*;

use std::collections::HashMap;

use crate::attempts::dtos::{
    status_of, AttemptQuestionResultView, AttemptSnapshotView, AttemptStatus, SaveAttemptAnswerDto,
};
use crate::attempts::entity::{Attempt, AttemptAnswer, AttemptId};
use crate::attempts::errors::AttemptError;
use crate::attempts::grading::{
    answer_for, graded_ids, graded_score, result_matches, score_fits, GradingOutput, GradingService,
};
use crate::attempts::questions::{first_missing, question_ids_of, question_map, QuestionService};
use crate::banks::entity::Question;
use crate::banks::views::{shows_question, QuestionView};
use crate::errors::AppError;
use crate::quizzes::entity::{CertaintyTable, Quiz, QuizId, QuizKind};
use crate::quizzes::errors::QuizError;
use crate::support::{
    new_uuid, now_micros, uuid_string, uuid_text, valid_instant, Timestamp, MICROS_PER_MINUTE,
};
use crate::users::UserId;

verus! {

/// Starts, answers, hands in and reports on attempts.
pub struct AttemptsService {
    pub questions_service: QuestionService,
    pub grading: GradingService,
}

/// The outcome of the answerability check at instant `now`: an attempt
/// may be answered up to one minute past its expiry, and only before it is
/// handed in.
pub open spec fn answerable(attempt: Attempt, now: Timestamp) -> Result<(), AttemptError> {
    if attempt.expires_at + MICROS_PER_MINUTE < now {
        Err(AttemptError::Expired)
    } else if attempt.submitted_at is Some {
        Err(AttemptError::AlreadySubmitted)
    } else {
        Ok(())
    }
}

/// The outcome of looking up a user's own attempt.
pub open spec fn owned_attempt(found: Option<Attempt>, attempt_id: AttemptId, user_id: UserId) -> Result<
    Attempt,
    AttemptError,
> {
    match found {
        None => Err(AttemptError::NotFound(attempt_id)),
        Some(a) => if a.student_id != user_id {
            Err(AttemptError::Forbidden)
        } else {
            Ok(a)
        },
    }
}

/// Whether `e` is the quiz-not-found error for quiz `id`.
pub open spec fn quiz_not_found(e: AppError, id: QuizId) -> bool {
    e matches AppError::Quiz(QuizError::NotFound(s)) && s@ == uuid_text(id)
}

/// The refusal that a certainty level gets for a quiz of kind `kind`.
pub open spec fn certainty_mismatch(kind: QuizKind, dto: SaveAttemptAnswerDto) -> Option<AttemptError> {
    match kind {
        QuizKind::Certainty => if dto.certainty_level is None {
            Some(AttemptError::CertaintyLevelRequired)
        } else {
            None
        },
        QuizKind::Traditional => if dto.certainty_level is Some {
            Some(AttemptError::CertaintyLevelNotAllowed)
        } else {
            None
        },
    }
}

/// The attempt that `initialize_attempt_at` builds.
pub open spec fn new_attempt(
    id: AttemptId,
    quiz: Quiz,
    user_id: UserId,
    order: Seq<u128>,
    now: Timestamp,
    a: Attempt,
) -> bool {
    &&& a.id == id
    &&& a.student_id == user_id
    &&& a.quiz_id == quiz.id
    &&& a.question_order@ == order
    &&& a.score is None
    &&& a.started_at == now
    &&& a.expires_at == now + quiz.attempt_duration_minutes * MICROS_PER_MINUTE
    &&& a.submitted_at is None
    &&& a.results_viewed_at is None
    &&& a.deleted_at is None
}

/// What initializing an attempt at quiz `quiz_id` answers at instant
/// `now`, with `attempt_id` for the new attempt: the quiz must exist, have
/// started and not be closed, the user must have no attempt at it, and its
/// questions must be enough; the new attempt takes `question_count` of
/// them, distinct where the quiz's are.
pub open spec fn initialize_outcome(
    quiz: Option<Quiz>,
    quiz_id: QuizId,
    user_id: UserId,
    existing: Seq<Attempt>,
    questions: Seq<Question>,
    now: Timestamp,
    attempt_id: AttemptId,
    r: Result<Attempt, AppError>,
) -> bool {
    match quiz {
        None => r matches Err(e) && quiz_not_found(e, quiz_id),
        Some(q) => if q.starts_at > now {
            r matches Err(AppError::Attempt(AttemptError::QuizNotStarted))
        } else if q.closed_at is Some {
            r matches Err(AppError::Attempt(AttemptError::QuizEnded))
        } else if existing.len() > 0 {
            r matches Err(AppError::Attempt(AttemptError::AlreadyAttempted))
        } else if questions.len() < (q.question_count as usize) {
            r matches Err(AppError::Quiz(QuizError::InvalidQuestionCount))
        } else {
            &&& r matches Ok(a)
            &&& r->Ok_0.question_order@.len() == (q.question_count as usize)
            &&& new_attempt(attempt_id, q, user_id, r->Ok_0.question_order@, now, r->Ok_0)
            &&& forall|i: int|
                0 <= i < r->Ok_0.question_order@.len() ==> exists|j: int|
                    0 <= j < questions.len() && questions[j].id
                        == #[trigger] r->Ok_0.question_order@[i]
            &&& question_ids_of(questions).no_duplicates()
                ==> r->Ok_0.question_order@.no_duplicates()
        },
    }
}

/// What a student sees of their graded attempt. Its grade, a floating-point
/// number, is added by the server.
#[derive(Clone, Debug)]
pub struct AttemptResults {
    pub attempt_id: AttemptId,
    pub quiz_id: QuizId,
    pub status: AttemptStatus,
    pub submitted_at: Timestamp,
    pub evaluated_at: Timestamp,
    pub score_points: i16,
    pub score_points_max: i16,
    pub results_viewed_at: Option<Timestamp>,
    pub questions: Vec<AttemptQuestionResultView>,
}

/// Whether `r` is what `save_answer_at` answers.
pub open spec fn save_answer_outcome(
    found: Option<Attempt>,
    attempt_id: AttemptId,
    question_id: u128,
    user_id: UserId,
    input: SaveAttemptAnswerDto,
    quiz: Option<Quiz>,
    questions: Seq<Question>,
    now: Timestamp,
    r: Result<AttemptAnswer, AppError>,
) -> bool {
    match owned_attempt(found, attempt_id, user_id) {
        Err(e) => r == Err::<AttemptAnswer, AppError>(AppError::Attempt(e)),
        Ok(attempt) => match quiz {
            None => r matches Err(e) && quiz_not_found(e, attempt.quiz_id),
            Some(q) => match certainty_mismatch(q.kind, input) {
                Some(e) => r == Err::<AttemptAnswer, AppError>(AppError::Attempt(e)),
                None => match answerable(attempt, now) {
                    Err(e) => r == Err::<AttemptAnswer, AppError>(AppError::Attempt(e)),
                    Ok(_) => if !attempt.question_order@.contains(question_id) {
                        r == Err::<AttemptAnswer, AppError>(
                            AppError::Attempt(AttemptError::QuestionNotInAttempt(question_id)),
                        )
                    } else {
                        match first_missing(
                            attempt.question_order@,
                            question_map(questions).dom(),
                        ) {
                            Some(id) => r matches Err(AppError::Quiz(QuizError::QuestionNotFound(s)))
                                && s@ == uuid_text(id),
                            None => {
                                let question = question_map(questions)[question_id];
                                if !(0 <= input.answer_index < (question.options@.len() as i16)) {
                                    r == Err::<AttemptAnswer, AppError>(
                                        AppError::Attempt(AttemptError::InvalidAnswerIndex),
                                    )
                                } else {
                                    r == Ok::<AttemptAnswer, AppError>(
                                        AttemptAnswer {
                                            attempt_id: attempt.id,
                                            question_id,
                                            answer_index: input.answer_index,
                                            certainty_level: input.certainty_level,
                                        },
                                    )
                                }
                            },
                        }
                    },
                },
            },
        },
    }
}

/// Whether `rows` are the result rows of grading an attempt.
pub open spec fn graded_rows(
    rows: Seq<AttemptQuestionResultView>,
    order: Seq<u128>,
    questions: Map<u128, Question>,
    answers: Seq<AttemptAnswer>,
    kind: QuizKind,
    table: Option<CertaintyTable>,
) -> bool {
    &&& rows.len() == graded_ids(order, questions).len()
    &&& forall|i: int|
        0 <= i < rows.len() ==> {
            let id = graded_ids(order, questions)[i];
            result_matches(#[trigger] rows[i], questions[id], answer_for(answers, id), kind, table)
        }
}

/// Whether a grading output is the grading of an attempt.
pub open spec fn grades(
    g: GradingOutput,
    order: Seq<u128>,
    questions: Map<u128, Question>,
    answers: Seq<AttemptAnswer>,
    kind: QuizKind,
    table: Option<CertaintyTable>,
) -> bool {
    &&& g.score_points_max == order.len() as i16
    &&& g.score_points as int == graded_score(order, questions, answers, kind, table)
    &&& graded_rows(g.questions@, order, questions, answers, kind, table)
}

/// Grading sums points in an `i16`: where the attempt is the user's and its
/// quiz exists, every running total of its score stays in range.
pub open spec fn owner_score_fits(
    found: Option<Attempt>,
    user_id: UserId,
    quiz: Option<Quiz>,
    questions: Seq<Question>,
    answers: Seq<AttemptAnswer>,
) -> bool {
    match (found, quiz) {
        (Some(a), Some(q)) => a.student_id == user_id ==> score_fits(
            a.question_order@,
            question_map(questions),
            answers,
            q.kind,
            q.certainty_table,
        ),
        _ => true,
    }
}

/// Whether `r` is what `submit_attempt_at` answers.
pub open spec fn submit_outcome(
    found: Option<Attempt>,
    attempt_id: AttemptId,
    user_id: UserId,
    quiz: Option<Quiz>,
    questions: Seq<Question>,
    answers: Seq<AttemptAnswer>,
    now: Timestamp,
    r: Result<(Attempt, GradingOutput), AppError>,
) -> bool {
    match owned_attempt(found, attempt_id, user_id) {
        Err(e) => r == Err::<(Attempt, GradingOutput), AppError>(AppError::Attempt(e)),
        Ok(attempt) => match answerable(attempt, now) {
            Err(e) => r == Err::<(Attempt, GradingOutput), AppError>(AppError::Attempt(e)),
            Ok(_) => match quiz {
                None => r matches Err(e) && quiz_not_found(e, attempt.quiz_id),
                Some(q) => match first_missing(
                    attempt.question_order@,
                    question_map(questions).dom(),
                ) {
                    Some(id) => r matches Err(AppError::Quiz(QuizError::QuestionNotFound(s))) && s@
                        == uuid_text(id),
                    None => r matches Ok(p) && grades(
                        p.1,
                        attempt.question_order@,
                        question_map(questions),
                        answers,
                        q.kind,
                        q.certainty_table,
                    ) && p.0 == (Attempt {
                        score: Some(p.1.score_points),
                        submitted_at: Some(now),
                        ..attempt
                    }),
                },
            },
        },
    }
}

/// Whether `r` is what `view_results_at` answers.
pub open spec fn results_outcome(
    found: Option<Attempt>,
    attempt_id: AttemptId,
    user_id: UserId,
    quiz: Option<Quiz>,
    has_grade: bool,
    questions: Seq<Question>,
    answers: Seq<AttemptAnswer>,
    now: Timestamp,
    r: Result<AttemptResults, AppError>,
) -> bool {
    match owned_attempt(found, attempt_id, user_id) {
        Err(e) => r == Err::<AttemptResults, AppError>(AppError::Attempt(e)),
        Ok(attempt) => match attempt.submitted_at {
            None => r == Err::<AttemptResults, AppError>(
                AppError::Attempt(AttemptError::ResultsNotAvailable),
            ),
            Some(submitted_at) => match quiz {
                None => r matches Err(e) && quiz_not_found(e, attempt.quiz_id),
                Some(q) => match attempt.score {
                    None => r == Err::<AttemptResults, AppError>(
                        AppError::Attempt(AttemptError::ResultsNotAvailable),
                    ),
                    Some(score) => if !has_grade {
                        r == Err::<AttemptResults, AppError>(
                            AppError::Attempt(AttemptError::ResultsNotAvailable),
                        )
                    } else {
                        match first_missing(
                            attempt.question_order@,
                            question_map(questions).dom(),
                        ) {
                            Some(id) => r matches Err(
                                AppError::Quiz(QuizError::QuestionNotFound(s)),
                            ) && s@ == uuid_text(id),
                            None => r matches Ok(v) && v.attempt_id == attempt.id && v.quiz_id
                                == attempt.quiz_id && v.status == AttemptStatus::Submitted
                                && v.submitted_at == submitted_at && v.evaluated_at
                                == submitted_at && v.score_points == score
                                && v.results_viewed_at == Some(now) && v.score_points_max
                                == attempt.question_order@.len() as i16 && graded_rows(
                                v.questions@,
                                attempt.question_order@,
                                question_map(questions),
                                answers,
                                q.kind,
                                q.certainty_table,
                            ),
                        }
                    },
                },
            },
        },
    }
}

impl AttemptsService {
    /// The attempt, if it exists and belongs to the user.
    pub fn get_attempt_for_user(&self, found: Option<Attempt>, attempt_id: AttemptId, user_id: UserId) -> (r:
        Result<Attempt, AttemptError>)
        ensures
            r == owned_attempt(found, attempt_id, user_id),
    {
        match found {
            None => Err(AttemptError::NotFound(attempt_id)),
            Some(attempt) => {
                if attempt.student_id != user_id {
                    return Err(AttemptError::Forbidden);
                }
                Ok(attempt)
            },
        }
    }

    /// The student's attempt at a quiz, if there is one.
    pub fn get_attempt_for_quiz_and_student(&self, found: Option<Attempt>) -> (r: Result<
        Attempt,
        AttemptError,
    >)
        ensures
            match found {
                None => r == Err::<Attempt, AttemptError>(AttemptError::NotFoundForQuiz),
                Some(a) => r == Ok::<Attempt, AttemptError>(a),
            },
    {
        match found {
            None => Err(AttemptError::NotFoundForQuiz),
            Some(a) => Ok(a),
        }
    }

    /// The answerability check at instant `now`.
    pub fn ensure_attempt_is_answerable_at(&self, attempt: &Attempt, now: Timestamp) -> (r: Result<
        (),
        AttemptError,
    >)
        requires
            valid_instant(attempt.expires_at as int),
        ensures
            r == answerable(*attempt, now),
    {
        if attempt.expires_at + MICROS_PER_MINUTE < now {
            return Err(AttemptError::Expired);
        }
        if attempt.submitted_at.is_some() {
            return Err(AttemptError::AlreadySubmitted);
        }
        Ok(())
    }

    /// The answerability check at the current instant.
    pub fn ensure_attempt_is_answerable(&self, attempt: &Attempt) -> (r: Result<(), AttemptError>)
        requires
            valid_instant(attempt.expires_at as int),
        ensures
            exists|now: Timestamp| valid_instant(now as int) && r == #[trigger] answerable(*attempt, now),
            attempt.submitted_at is Some ==> r is Err,
    {
        let now = now_micros();
        self.ensure_attempt_is_answerable_at(attempt, now)
    }

    /// Starts the user's attempt at a quiz at instant `now`, with id
    /// `attempt_id`. `quiz` is the quiz stored under `quiz_id`,
    /// `existing` the user's attempts at it, `questions` its questions.
    /// Refused when the quiz is unknown, has not started, is closed, or was
    /// already attempted, or has fewer questions than it asks.
    pub fn initialize_attempt_at(
        &self,
        quiz: Option<Quiz>,
        quiz_id: QuizId,
        user_id: UserId,
        existing: &Vec<Attempt>,
        questions: &Vec<Question>,
        now: Timestamp,
        attempt_id: AttemptId,
    ) -> (r: Result<Attempt, AppError>)
        requires
            valid_instant(now as int),
        ensures
            initialize_outcome(quiz, quiz_id, user_id, existing@, questions@, now, attempt_id, r),
            r is Ok ==> r->Ok_0.started_at == now && r->Ok_0.expires_at == now
                + quiz->0.attempt_duration_minutes * MICROS_PER_MINUTE,
    {
        let quiz = match quiz {
            None => {
                return Err(AppError::Quiz(QuizError::NotFound(uuid_string(quiz_id))));
            },
            Some(q) => q,
        };
        if quiz.starts_at > now {
            return Err(AppError::Attempt(AttemptError::QuizNotStarted));
        }
        if quiz.closed_at.is_some() {
            return Err(AppError::Attempt(AttemptError::QuizEnded));
        }
        if existing.len() > 0 {
            return Err(AppError::Attempt(AttemptError::AlreadyAttempted));
        }
        let question_order = match self.questions_service.get_question_ids_for_attempt(
            questions,
            quiz.question_count as usize,
        ) {
            Err(e) => {
                return Err(AppError::Quiz(e));
            },
            Ok(v) => v,
        };
        proof {
            crate::attempts::questions::lemma_ids_of(questions@);
            assert forall|i: int| 0 <= i < question_order@.len() implies exists|j: int|
                0 <= j < questions@.len() && questions@[j].id == #[trigger] question_order@[i] by {
                let ids = crate::attempts::questions::question_ids_of(questions@);
                assert(ids.contains(question_order@[i]));
                let j = choose|j: int| 0 <= j < ids.len() && ids[j] == question_order@[i];
                assert(questions@[j].id == question_order@[i]);
            }
        }
        let expires_at = now + (quiz.attempt_duration_minutes as i64) * MICROS_PER_MINUTE;
        Ok(
            Attempt {
                id: attempt_id,
                student_id: user_id,
                quiz_id: quiz.id,
                question_order,
                score: None,
                started_at: now,
                expires_at,
                submitted_at: None,
                results_viewed_at: None,
                deleted_at: None,
            },
        )
    }

    /// Starts the user's attempt at a quiz now, with a fresh random id; see
    /// `initialize_attempt_at`.
    pub fn initialize_attempt(
        &self,
        quiz: Option<Quiz>,
        quiz_id: QuizId,
        user_id: UserId,
        existing: &Vec<Attempt>,
        questions: &Vec<Question>,
    ) -> (r: Result<Attempt, AppError>)
        ensures
            quiz is None ==> (r matches Err(e) && quiz_not_found(e, quiz_id)),
            quiz matches Some(q) && q.closed_at is Some ==> r is Err,
            quiz is Some && existing@.len() > 0 ==> r is Err,
            r matches Ok(a) ==> a.student_id == user_id && a.submitted_at is None && a.score is None
                && a.question_order@.len() == (quiz->0.question_count as usize),
            exists|now: Timestamp, attempt_id: AttemptId|
                valid_instant(now as int) && #[trigger] initialize_outcome(
                    quiz,
                    quiz_id,
                    user_id,
                    existing@,
                    questions@,
                    now,
                    attempt_id,
                    r,
                ),
    {
        let now = now_micros();
        let id = new_uuid();
        let r = self.initialize_attempt_at(quiz, quiz_id, user_id, existing, questions, now, id);
        assert(initialize_outcome(quiz, quiz_id, user_id, existing@, questions@, now, id, r));
        r
    }

    /// The view of a freshly started attempt, with its questions in the
    /// attempt's order. Refused where one of them is not a question of the
    /// quiz.
    pub fn get_initialize_response(&self, attempt: &Attempt, questions: Vec<Question>) -> (r: Result<
        (AttemptSnapshotView, Vec<QuestionView>),
        QuizError,
    >)
        ensures
            match first_missing(attempt.question_order@, question_map(questions@).dom()) {
                None => r matches Ok(p) && p.0.attempt_id == attempt.id && p.0.quiz_id
                    == attempt.quiz_id && p.0.started_at == attempt.started_at && p.0.expires_at
                    == attempt.expires_at && p.0.submitted_at == attempt.submitted_at && p.0.status
                    == status_of(attempt.submitted_at) && p.1@.len()
                    == attempt.question_order@.len() && forall|i: int|
                    0 <= i < p.1@.len() ==> shows_question(
                        #[trigger] p.1@[i],
                        question_map(questions@)[attempt.question_order@[i]],
                    ),
                Some(id) => r matches Err(QuizError::QuestionNotFound(s)) && s@ == uuid_text(id),
            },
    {
        let views = match self.questions_service.get_ordered_question_views(
            questions,
            attempt.question_order.as_slice(),
        ) {
            Err(e) => {
                return Err(e);
            },
            Ok(v) => v,
        };
        Ok((AttemptSnapshotView::from(attempt), views))
    }
}

impl AttemptsService {
    /// Grades an attempt; see `GradingService::grade_attempt`.
    pub fn apply_grading(
        &self,
        question_order: &[u128],
        questions_by_id: &HashMap<u128, Question>,
        answers: &[AttemptAnswer],
        quiz_kind: QuizKind,
        certainty_table: Option<CertaintyTable>,
    ) -> (out: GradingOutput)
        requires
            score_fits(question_order@, questions_by_id@, answers@, quiz_kind, certainty_table),
        ensures
            grades(
                out,
                question_order@,
                questions_by_id@,
                answers@,
                quiz_kind,
                certainty_table,
            ),
    {
        self.grading.grade_attempt(
            question_order,
            questions_by_id,
            answers,
            quiz_kind,
            certainty_table,
        )
    }

    /// Records the answer to one question of the user's attempt at instant
    /// `now`. `found` is the attempt stored under `attempt_id`, `quiz` its
    /// quiz, `questions` the quiz's questions. Returns the answer to store.
    pub fn save_answer_at(
        &self,
        found: Option<Attempt>,
        attempt_id: AttemptId,
        question_id: u128,
        user_id: UserId,
        input: SaveAttemptAnswerDto,
        quiz: Option<Quiz>,
        questions: Vec<Question>,
        now: Timestamp,
    ) -> (r: Result<AttemptAnswer, AppError>)
        requires
            found matches Some(a) ==> valid_instant(a.expires_at as int),
        ensures
            save_answer_outcome(
                found,
                attempt_id,
                question_id,
                user_id,
                input,
                quiz,
                questions@,
                now,
                r,
            ),
    {
        let ghost qs = questions@;
        let attempt = match self.get_attempt_for_user(found, attempt_id, user_id) {
            Err(e) => {
                return Err(AppError::Attempt(e));
            },
            Ok(a) => a,
        };
        let quiz = match quiz {
            None => {
                return Err(AppError::Quiz(QuizError::NotFound(uuid_string(attempt.quiz_id))));
            },
            Some(q) => q,
        };
        match quiz.kind {
            QuizKind::Certainty => {
                if input.certainty_level.is_none() {
                    return Err(AppError::Attempt(AttemptError::CertaintyLevelRequired));
                }
            },
            QuizKind::Traditional => {
                if input.certainty_level.is_some() {
                    return Err(AppError::Attempt(AttemptError::CertaintyLevelNotAllowed));
                }
            },
        }
        match self.ensure_attempt_is_answerable_at(&attempt, now) {
            Err(e) => {
                return Err(AppError::Attempt(e));
            },
            Ok(()) => {},
        }
        match self.questions_service.ensure_question_belongs_to_attempt(
            attempt.question_order.as_slice(),
            question_id,
        ) {
            Err(e) => {
                return Err(AppError::Attempt(e));
            },
            Ok(()) => {},
        }
        let questions_by_id = match self.questions_service.get_questions_by_ids(
            questions,
            attempt.question_order.as_slice(),
        ) {
            Err(e) => {
                return Err(AppError::Quiz(e));
            },
            Ok(m) => m,
        };
        proof {
            crate::attempts::questions::lemma_first_missing(
                attempt.question_order@,
                question_map(qs).dom(),
            );
            let k = choose|k: int|
                0 <= k < attempt.question_order@.len() && attempt.question_order@[k]
                    == question_id;
            assert(question_map(qs).dom().contains(attempt.question_order@[k]));
        }
        let question = match questions_by_id.get(&question_id) {
            None => {
                return Err(AppError::Quiz(QuizError::QuestionNotFound(uuid_string(question_id))));
            },
            Some(q) => q,
        };
        match self.questions_service.ensure_valid_answer_index(question, input.answer_index) {
            Err(e) => {
                return Err(AppError::Attempt(e));
            },
            Ok(()) => {},
        }
        Ok(
            AttemptAnswer {
                attempt_id: attempt.id,
                question_id,
                answer_index: input.answer_index,
                certainty_level: input.certainty_level,
            },
        )
    }

    /// Hands in the user's attempt at instant `now` and grades it.
    /// `found` is the attempt stored under `attempt_id`, `quiz` its quiz,
    /// `questions` the quiz's questions and `answers` the attempt's answers.
    /// Returns the attempt to store, with its score and submission time, and
    /// the grading.
    pub fn submit_attempt_at(
        &self,
        found: Option<Attempt>,
        attempt_id: AttemptId,
        user_id: UserId,
        quiz: Option<Quiz>,
        questions: Vec<Question>,
        answers: &[AttemptAnswer],
        now: Timestamp,
    ) -> (r: Result<(Attempt, GradingOutput), AppError>)
        requires
            found matches Some(a) ==> valid_instant(a.expires_at as int),
            owner_score_fits(found, user_id, quiz, questions@, answers@),
        ensures
            submit_outcome(found, attempt_id, user_id, quiz, questions@, answers@, now, r),
    {
        let ghost qs = questions@;
        let mut attempt = match self.get_attempt_for_user(found, attempt_id, user_id) {
            Err(e) => {
                return Err(AppError::Attempt(e));
            },
            Ok(a) => a,
        };
        match self.ensure_attempt_is_answerable_at(&attempt, now) {
            Err(e) => {
                return Err(AppError::Attempt(e));
            },
            Ok(()) => {},
        }
        let quiz = match quiz {
            None => {
                return Err(AppError::Quiz(QuizError::NotFound(uuid_string(attempt.quiz_id))));
            },
            Some(q) => q,
        };
        let questions_by_id = match self.questions_service.get_questions_by_ids(
            questions,
            attempt.question_order.as_slice(),
        ) {
            Err(e) => {
                return Err(AppError::Quiz(e));
            },
            Ok(m) => m,
        };
        let grading = self.apply_grading(
            attempt.question_order.as_slice(),
            &questions_by_id,
            answers,
            quiz.kind,
            quiz.certainty_table,
        );
        attempt.score = Some(grading.score_points);
        attempt.submitted_at = Some(now);
        Ok((attempt, grading))
    }

    /// Reports the graded result of the user's attempt at instant `now`,
    /// the moment the results count as viewed. `has_grade` tells whether a
    /// grade is stored with the attempt.
    pub fn view_results_at(
        &self,
        found: Option<Attempt>,
        attempt_id: AttemptId,
        user_id: UserId,
        quiz: Option<Quiz>,
        has_grade: bool,
        questions: Vec<Question>,
        answers: &[AttemptAnswer],
        now: Timestamp,
    ) -> (r: Result<AttemptResults, AppError>)
        requires
            owner_score_fits(found, user_id, quiz, questions@, answers@),
        ensures
            results_outcome(
                found,
                attempt_id,
                user_id,
                quiz,
                has_grade,
                questions@,
                answers@,
                now,
                r,
            ),
    {
        let attempt = match self.get_attempt_for_user(found, attempt_id, user_id) {
            Err(e) => {
                return Err(AppError::Attempt(e));
            },
            Ok(a) => a,
        };
        let submitted_at = match attempt.submitted_at {
            None => {
                return Err(AppError::Attempt(AttemptError::ResultsNotAvailable));
            },
            Some(t) => t,
        };
        let quiz = match quiz {
            None => {
                return Err(AppError::Quiz(QuizError::NotFound(uuid_string(attempt.quiz_id))));
            },
            Some(q) => q,
        };
        let score_points = match attempt.score {
            None => {
                return Err(AppError::Attempt(AttemptError::ResultsNotAvailable));
            },
            Some(s) => s,
        };
        if !has_grade {
            return Err(AppError::Attempt(AttemptError::ResultsNotAvailable));
        }
        let questions_by_id = match self.questions_service.get_questions_by_ids(
            questions,
            attempt.question_order.as_slice(),
        ) {
            Err(e) => {
                return Err(AppError::Quiz(e));
            },
            Ok(m) => m,
        };
        let details = self.apply_grading(
            attempt.question_order.as_slice(),
            &questions_by_id,
            answers,
            quiz.kind,
            quiz.certainty_table,
        );
        Ok(
            AttemptResults {
                attempt_id: attempt.id,
                quiz_id: attempt.quiz_id,
                status: AttemptStatus::Submitted,
                submitted_at,
                evaluated_at: submitted_at,
                score_points,
                score_points_max: details.score_points_max,
                results_viewed_at: Some(now),
                questions: details.questions,
            },
        )
    }

    /// `save_answer_at` at the current instant.
    pub fn save_answer(
        &self,
        found: Option<Attempt>,
        attempt_id: AttemptId,
        question_id: u128,
        user_id: UserId,
        input: SaveAttemptAnswerDto,
        quiz: Option<Quiz>,
        questions: Vec<Question>,
    ) -> (r: Result<AttemptAnswer, AppError>)
        requires
            found matches Some(a) ==> valid_instant(a.expires_at as int),
        ensures
            exists|now: Timestamp|
                valid_instant(now as int) && #[trigger] save_answer_outcome(
                    found,
                    attempt_id,
                    question_id,
                    user_id,
                    input,
                    quiz,
                    questions@,
                    now,
                    r,
                ),
    {
        let now = now_micros();
        self.save_answer_at(found, attempt_id, question_id, user_id, input, quiz, questions, now)
    }

    /// `submit_attempt_at` at the current instant.
    pub fn submit_attempt(
        &self,
        found: Option<Attempt>,
        attempt_id: AttemptId,
        user_id: UserId,
        quiz: Option<Quiz>,
        questions: Vec<Question>,
        answers: &[AttemptAnswer],
    ) -> (r: Result<(Attempt, GradingOutput), AppError>)
        requires
            found matches Some(a) ==> valid_instant(a.expires_at as int),
            owner_score_fits(found, user_id, quiz, questions@, answers@),
        ensures
            exists|now: Timestamp|
                valid_instant(now as int) && #[trigger] submit_outcome(found, attempt_id, user_id, quiz, questions@, answers@, now, r),
    {
        let now = now_micros();
        self.submit_attempt_at(found, attempt_id, user_id, quiz, questions, answers, now)
    }

    /// `view_results_at` at the current instant.
    pub fn view_results(
        &self,
        found: Option<Attempt>,
        attempt_id: AttemptId,
        user_id: UserId,
        quiz: Option<Quiz>,
        has_grade: bool,
        questions: Vec<Question>,
        answers: &[AttemptAnswer],
    ) -> (r: Result<AttemptResults, AppError>)
        requires
            owner_score_fits(found, user_id, quiz, questions@, answers@),
        ensures
            exists|now: Timestamp|
                valid_instant(now as int) && #[trigger] results_outcome(
                    found,
                    attempt_id,
                    user_id,
                    quiz,
                    has_grade,
                    questions@,
                    answers@,
                    now,
                    r,
                ),
    {
        let now = now_micros();
        self.view_results_at(found, attempt_id, user_id, quiz, has_grade, questions, answers, now)
    }
}

/// An attempt is handed in once: submitting again the attempt that a
/// submission stored is refused, as already submitted while the attempt
/// has not expired, and as expired after.
pub proof fn lemma_submit_once(
    found: Option<Attempt>,
    attempt_id: AttemptId,
    user_id: UserId,
    quiz: Option<Quiz>,
    questions: Seq<Question>,
    answers: Seq<AttemptAnswer>,
    now: Timestamp,
    r: Result<(Attempt, GradingOutput), AppError>,
    quiz2: Option<Quiz>,
    questions2: Seq<Question>,
    answers2: Seq<AttemptAnswer>,
    later: Timestamp,
    r2: Result<(Attempt, GradingOutput), AppError>,
)
    requires
        submit_outcome(found, attempt_id, user_id, quiz, questions, answers, now, r),
        r matches Ok(p) && submit_outcome(
            Some(p.0),
            attempt_id,
            user_id,
            quiz2,
            questions2,
            answers2,
            later,
            r2,
        ),
    ensures
        r matches Ok(p) && later <= p.0.expires_at + MICROS_PER_MINUTE ==> r2 == Err::<
            (Attempt, GradingOutput),
            AppError,
        >(AppError::Attempt(AttemptError::AlreadySubmitted)),
        r matches Ok(p) && later > p.0.expires_at + MICROS_PER_MINUTE ==> r2 == Err::<
            (Attempt, GradingOutput),
            AppError,
        >(AppError::Attempt(AttemptError::Expired)),
{
}

/// A new attempt starts at the instant it is initialized, whenever the
/// quiz started, and lasts the quiz's duration from then; it is only made
/// for a quiz that has started, is not closed, and that the student has not
/// attempted yet, and it is neither handed in nor scored.
pub proof fn lemma_attempt_starts_when_initialized(
    quiz: Option<Quiz>,
    quiz_id: QuizId,
    user_id: UserId,
    existing: Seq<Attempt>,
    questions: Seq<Question>,
    now: Timestamp,
    attempt_id: AttemptId,
    r: Result<Attempt, AppError>,
)
    requires
        initialize_outcome(quiz, quiz_id, user_id, existing, questions, now, attempt_id, r),
        r is Ok,
    ensures
        quiz is Some,
        quiz->0.starts_at <= now,
        quiz->0.closed_at is None,
        existing.len() == 0,
        r->Ok_0.id == attempt_id,
        r->Ok_0.student_id == user_id,
        r->Ok_0.started_at == now,
        r->Ok_0.expires_at == r->Ok_0.started_at + quiz->0.attempt_duration_minutes * MICROS_PER_MINUTE,
        r->Ok_0.submitted_at is None,
        r->Ok_0.score is None,
        r->Ok_0.question_order@.len() == (quiz->0.question_count as usize),
{
}

} // verus!
