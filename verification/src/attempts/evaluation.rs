use vstd::prelude::*;

use crate::attempts::dtos::{status_of, AttemptQuestionResultView, AttemptSnapshotView, AttemptStatus};
use crate::attempts::entity::{Attempt, AttemptAnswer, AttemptId};
use crate::attempts::errors::AttemptError;
use crate::attempts::grading::{
    answer_correct, answer_for, certainty_points, find_answer, index_of, level_of, result_matches,
    GradingService,
};
use crate::attempts::policy::{submit_check, AttemptPolicy};
use crate::banks::entity::{clone_strings, Question};
use crate::banks::views::{shows_question, QuestionView};
use crate::errors::AppError;
use crate::quizzes::dtos::{row_in_range, table_in_range};
use crate::quizzes::entity::{CertaintyLevel, CertaintyTable, Quiz, QuizId, QuizKind};
use crate::quizzes::errors::QuizError;
use crate::quizzes::services::{quiz_not_found_text, QuizPolicy};
use crate::support::{
    new_uuid, now_micros, shuffle_ids, uuid_text, valid_instant, Timestamp, MICROS_PER_MINUTE,
};
use crate::users::{User, UserRole};

verus! {

/// Evaluates attempts at quizzes whose questions are stored with the quiz,
/// and decides on starting attempts and releasing results.
pub struct AttemptService {
    pub policy: AttemptPolicy,
    pub grading: GradingService,
}

/// The integral part of an evaluation. The grade, computed in floating
/// point from the two scores, is added by the server.
#[derive(Clone, Debug)]
pub struct AttemptEvaluation {
    pub score_points: i64,
    pub score_points_max: i64,
    pub questions: Vec<AttemptQuestionResultView>,
}

/// The first question of the list with the given id.
pub open spec fn first_question(qs: Seq<Question>, id: u128) -> Option<Question>
    decreases qs.len(),
{
    if qs.len() == 0 {
        None
    } else if qs[0].id == id {
        Some(qs[0])
    } else {
        first_question(qs.drop_first(), id)
    }
}

/// The best points a question can give: the highest reward of the table
/// for a correct answer where it is positive, else one.
pub open spec fn max_points_per_question(table: Option<CertaintyTable>) -> int {
    match table {
        None => 1,
        Some(t) => {
            let m = if t.medium.correct >= t.high.correct {
                t.medium.correct
            } else {
                t.high.correct
            };
            let m = if t.low.correct >= m {
                t.low.correct
            } else {
                m
            };
            if m > 0 {
                m as int
            } else {
                1
            }
        },
    }
}

/// Points for a question answered `a`, under the table if there is one.
pub open spec fn evaluated_points(q: Question, a: Option<AttemptAnswer>, table: Option<CertaintyTable>) -> int {
    certainty_points(table, level_of(a), answer_correct(a, q))
}

/// The ids of `order` that name a question of the list, in order.
pub open spec fn evaluated_ids(order: Seq<u128>, qs: Seq<Question>) -> Seq<u128>
    decreases order.len(),
{
    if order.len() == 0 {
        Seq::empty()
    } else {
        let rest = evaluated_ids(order.drop_last(), qs);
        if first_question(qs, order.last()) is Some {
            rest.push(order.last())
        } else {
            rest
        }
    }
}

/// The score of an attempt: the points of each question of `order` found
/// in the list, summed.
pub open spec fn evaluated_score(
    order: Seq<u128>,
    qs: Seq<Question>,
    answers: Seq<AttemptAnswer>,
    table: Option<CertaintyTable>,
) -> int
    decreases order.len(),
{
    if order.len() == 0 {
        0
    } else {
        evaluated_score(order.drop_last(), qs, answers, table) + match first_question(
            qs,
            order.last(),
        ) {
            Some(q) => evaluated_points(q, answer_for(answers, order.last()), table),
            None => 0,
        }
    }
}

/// In the evaluation of an attempt under a certainty table, an answer
/// without a certainty level earns nothing, however it was answered.
pub proof fn lemma_levelless_answer_evaluates_to_nothing(
    q: Question,
    a: Option<AttemptAnswer>,
    table: CertaintyTable,
)
    requires
        level_of(a) is None,
    ensures
        evaluated_points(q, a, Some(table)) == 0,
{
}

/// In the evaluation of an attempt, a question left unanswered earns
/// nothing, and adding it to the attempt leaves the score unchanged.
pub proof fn lemma_unanswered_evaluates_to_nothing(
    order: Seq<u128>,
    question_id: u128,
    qs: Seq<Question>,
    answers: Seq<AttemptAnswer>,
    table: Option<CertaintyTable>,
    q: Question,
)
    requires
        answer_for(answers, question_id) is None,
    ensures
        evaluated_points(q, answer_for(answers, question_id), table) == 0,
        evaluated_score(order.push(question_id), qs, answers, table) == evaluated_score(
            order,
            qs,
            answers,
            table,
        ),
{
    assert(order.push(question_id).drop_last() =~= order);
}

/// Bounds on the score of the first questions of an attempt.
proof fn lemma_evaluated_score_bounds(
    order: Seq<u128>,
    qs: Seq<Question>,
    answers: Seq<AttemptAnswer>,
    table: Option<CertaintyTable>,
)
    ensures
        -32768 * order.len() <= evaluated_score(order, qs, answers, table) <= 32767 * order.len(),
    decreases order.len(),
{
    if order.len() > 0 {
        lemma_evaluated_score_bounds(order.drop_last(), qs, answers, table);
    }
}

/// Under a table whose rows are in range (or no table), an evaluated
/// attempt scores at most its maximum, the number of ids in its order
/// times the best points a question can give, and loses at most 100 points
/// a question.
pub proof fn lemma_evaluated_score_within_max(
    order: Seq<u128>,
    qs: Seq<Question>,
    answers: Seq<AttemptAnswer>,
    table: Option<CertaintyTable>,
)
    requires
        table matches Some(t) ==> table_in_range(t),
    ensures
        -100 * order.len() <= evaluated_score(order, qs, answers, table),
        evaluated_score(order, qs, answers, table) <= order.len() * max_points_per_question(table),
    decreases order.len(),
{
    if order.len() > 0 {
        let prev = order.drop_last();
        lemma_evaluated_score_within_max(prev, qs, answers, table);
        let m = max_points_per_question(table);
        let n = prev.len() as int;
        match first_question(qs, order.last()) {
            Some(q) => {
                let a = answer_for(answers, order.last());
                match table {
                    Some(t) => match level_of(a) {
                        Some(l) => {
                            assert(row_in_range(t.row(l)));
                        },
                        None => {},
                    },
                    None => {},
                }
                assert(-100 <= evaluated_points(q, a, table) <= m);
            },
            None => {},
        }
        assert(1 <= m);
        assert((n + 1) * m == n * m + m) by (nonlinear_arith);
    }
}

/// What saving an answer to question `question_id` of the attempt the
/// database `found` answers at instant `now`: the attempt must exist and be
/// the user's, its quiz must exist, the attempt must still be open (see
/// `submit_check`), the question must be listed in the attempt and found
/// among the quiz's questions, and the index must name one of its options.
pub open spec fn owner_answer_outcome(
    user: User,
    attempt_id: AttemptId,
    found: Option<Attempt>,
    quiz: Option<Quiz>,
    questions: Seq<Question>,
    question_id: u128,
    answer_index: i16,
    certainty_level: Option<CertaintyLevel>,
    now: Timestamp,
    r: Result<AttemptAnswer, AttemptError>,
) -> bool {
    match found {
        None => r == Err::<AttemptAnswer, AttemptError>(AttemptError::NotFound(attempt_id)),
        Some(a) => if a.student_id != user.id {
            r == Err::<AttemptAnswer, AttemptError>(AttemptError::Forbidden)
        } else if quiz is None {
            r == Err::<AttemptAnswer, AttemptError>(AttemptError::NotFound(a.quiz_id))
        } else if submit_check(user, a, now) is Err {
            r == Err::<AttemptAnswer, AttemptError>(submit_check(user, a, now)->Err_0)
        } else if !a.question_order@.contains(question_id) || first_question(questions, question_id) is None {
            r == Err::<AttemptAnswer, AttemptError>(AttemptError::QuestionNotInAttempt(question_id))
        } else if !(0 <= answer_index && answer_index < first_question(
            questions,
            question_id,
        )->0.options@.len()) {
            r == Err::<AttemptAnswer, AttemptError>(AttemptError::InvalidAnswerIndex)
        } else {
            r == Ok::<AttemptAnswer, AttemptError>(
                AttemptAnswer { attempt_id: a.id, question_id, answer_index, certainty_level },
            )
        },
    }
}

/// Finds the first question with the given id.
pub fn find_question(qs: &[Question], id: u128) -> (r: Option<&Question>)
    ensures
        match first_question(qs@, id) {
            None => r is None,
            Some(q) => r matches Some(x) && *x == q,
        },
{
    let mut i: usize = 0;
    proof {
        assert(qs@.skip(0) == qs@);
    }
    while i < qs.len()
        invariant
            i <= qs@.len(),
            first_question(qs@, id) == first_question(qs@.skip(i as int), id),
        decreases qs@.len() - i,
    {
        proof {
            assert(qs@.skip(i as int)[0] == qs@[i as int]);
            assert(qs@.skip(i as int).drop_first() == qs@.skip(i as int + 1));
        }
        if qs[i].id == id {
            return Some(&qs[i]);
        }
        i = i + 1;
    }
    None
}

impl AttemptService {
    /// Points for one question: one for a correct answer without a table;
    /// with a table, its entry for the answer's certainty level, nothing
    /// without a level.
    pub fn compute_awarded_points(
        &self,
        uses_certainty_table: bool,
        certainty_table: Option<CertaintyTable>,
        is_correct: bool,
        certainty_level: Option<crate::quizzes::entity::CertaintyLevel>,
    ) -> (r: i16)
        ensures
            !uses_certainty_table ==> r == (if is_correct {
                1i16
            } else {
                0i16
            }),
            uses_certainty_table ==> r as int == certainty_points(
                certainty_table,
                certainty_level,
                is_correct,
            ),
    {
        if !uses_certainty_table {
            return if is_correct {
                1
            } else {
                0
            };
        }
        self.grading.awarded_points_for_certainty(is_correct, certainty_level, &certainty_table)
    }

    /// Evaluates an attempt against the quiz's questions: each id of
    /// `question_order` naming one of them gives a result row and its
    /// points; the maximum is the number of ids times the best points a
    /// question can give.
    pub fn evaluate_attempt(
        &self,
        questions: &[Question],
        certainty_table: Option<CertaintyTable>,
        question_order: &[u128],
        answers: &[AttemptAnswer],
    ) -> (out: AttemptEvaluation)
        requires
            question_order@.len() <= 0x40_0000_0000,
        ensures
            out.score_points_max == question_order@.len() * max_points_per_question(certainty_table),
            out.score_points == evaluated_score(question_order@, questions@, answers@, certainty_table),
            out.questions@.len() == evaluated_ids(question_order@, questions@).len(),
            forall|i: int|
                0 <= i < out.questions@.len() ==> {
                    let id = evaluated_ids(question_order@, questions@)[i];
                    result_matches(
                        #[trigger] out.questions@[i],
                        first_question(questions@, id)->0,
                        answer_for(answers@, id),
                        QuizKind::Certainty,
                        certainty_table,
                    )
                },
    {
        let ghost order = question_order@;
        let certainty_max_correct: i64 = match certainty_table {
            Some(t) => {
                let m = if t.medium.correct >= t.high.correct {
                    t.medium.correct
                } else {
                    t.high.correct
                };
                let m = if t.low.correct >= m {
                    t.low.correct
                } else {
                    m
                };
                m as i64
            },
            None => 1,
        };
        let max_points_per_question: i64 = if certainty_max_correct > 0 {
            certainty_max_correct
        } else {
            1
        };
        let uses_certainty_table = certainty_table.is_some();
        let n = question_order.len() as i64;
        assert(n * max_points_per_question <= 0x40_0000_0000 * 32767) by (nonlinear_arith)
            requires
                0 <= n <= 0x40_0000_0000,
                1 <= max_points_per_question <= 32767,
        ;
        let score_points_max: i64 = if uses_certainty_table {
            n * max_points_per_question
        } else {
            n
        };
        let mut score_points: i64 = 0;
        let mut rows: Vec<AttemptQuestionResultView> = Vec::new();
        let mut i: usize = 0;
        while i < question_order.len()
            invariant
                i <= order.len() <= 0x40_0000_0000,
                order == question_order@,
                uses_certainty_table == (certainty_table is Some),
                score_points == evaluated_score(
                    order.take(i as int),
                    questions@,
                    answers@,
                    certainty_table,
                ),
                rows@.len() == evaluated_ids(order.take(i as int), questions@).len(),
                forall|j: int|
                    0 <= j < rows@.len() ==> {
                        let id = evaluated_ids(order.take(i as int), questions@)[j];
                        result_matches(
                            #[trigger] rows@[j],
                            first_question(questions@, id)->0,
                            answer_for(answers@, id),
                            QuizKind::Certainty,
                            certainty_table,
                        )
                    },
            decreases order.len() - i,
        {
            let question_id = question_order[i];
            proof {
                assert(order.take(i as int + 1).drop_last() == order.take(i as int));
                assert(order.take(i as int + 1).last() == question_id);
                lemma_evaluated_score_bounds(
                    order.take(i as int),
                    questions@,
                    answers@,
                    certainty_table,
                );
            }
            match find_question(questions, question_id) {
                None => {},
                Some(question) => {
                    let answer = find_answer(answers, question_id);
                    let answer_index = match answer {
                        Some(a) => Some(a.answer_index),
                        None => None,
                    };
                    let certainty_level = match answer {
                        Some(a) => a.certainty_level,
                        None => None,
                    };
                    let is_correct = match answer {
                        Some(a) => a.answer_index == question.answer_index,
                        None => false,
                    };
                    let awarded = self.compute_awarded_points(
                        uses_certainty_table,
                        certainty_table,
                        is_correct,
                        certainty_level,
                    );
                    proof {
                        assert(answer == answer_for(answers@, question_id));
                        assert(awarded as int == evaluated_points(*question, answer, certainty_table));
                        assert(first_question(questions@, question_id) == Some(*question));
                    }
                    score_points = score_points + awarded as i64;
                    rows.push(
                        AttemptQuestionResultView {
                            question_id: question.id,
                            question: question.prompt.clone(),
                            options: clone_strings(&question.options),
                            images: clone_strings(&question.images),
                            answer_index,
                            correct_answer_index: question.answer_index,
                            certainty_level,
                            is_correct,
                            awarded_points: awarded,
                        },
                    );
                },
            }
            i = i + 1;
        }
        proof {
            assert(order.take(order.len() as int) == order);
        }
        AttemptEvaluation { score_points, score_points_max, questions: rows }
    }
}

/// How `start_attempt_at` starts an attempt.
#[derive(Clone, Debug)]
pub enum StartOutcome {
    /// The student's attempt in progress, to continue.
    Resumed(Attempt),
    /// A new attempt, to store.
    Created(Attempt),
}

/// What starting an attempt at quiz `quiz_id` answers at instant `now`,
/// with `attempt_id` for a new attempt: only students start; the quiz must
/// exist, be open and have started; an attempt in progress is resumed, a
/// handed-in one refused, and otherwise a new attempt takes all the quiz's
/// questions.
pub open spec fn start_outcome(
    user: User,
    quiz: Option<Quiz>,
    quiz_id: QuizId,
    questions: Seq<Question>,
    existing: Option<Attempt>,
    now: Timestamp,
    attempt_id: AttemptId,
    r: Result<StartOutcome, AppError>,
) -> bool {
    if user.role != UserRole::Student {
        r matches Err(AppError::Attempt(AttemptError::Forbidden))
    } else {
        match quiz {
            None => r matches Err(AppError::Attempt(AttemptError::NotFound(id))) && id == quiz_id,
            Some(q) => if q.closed_at is Some {
                r matches Err(AppError::Quiz(QuizError::Closed))
            } else if now < q.starts_at {
                r matches Err(AppError::Attempt(AttemptError::QuizNotStarted))
            } else {
                match existing {
                    Some(a) => if a.submitted_at is Some {
                        r matches Err(AppError::Attempt(AttemptError::AlreadySubmitted))
                    } else {
                        r matches Ok(StartOutcome::Resumed(b)) && b == a
                    },
                    None => r matches Ok(StartOutcome::Created(a)) && a.id == attempt_id
                        && a.quiz_id == quiz_id && a.student_id == user.id && a.started_at == now
                        && a.expires_at == now + q.attempt_duration_minutes * MICROS_PER_MINUTE
                        && a.submitted_at is None && a.score is None && a.results_viewed_at is None
                        && a.deleted_at is None && a.question_order@.to_multiset()
                        == crate::attempts::questions::question_ids_of(questions).to_multiset(),
                }
            },
        }
    }
}

/// An attempt created on starting a quiz starts at the instant of the
/// request, whenever the quiz started, and lasts the quiz's duration from
/// then; an attempt in progress is resumed as it was.
pub proof fn lemma_started_attempt_starts_now(
    user: User,
    quiz: Option<Quiz>,
    quiz_id: QuizId,
    questions: Seq<Question>,
    existing: Option<Attempt>,
    now: Timestamp,
    attempt_id: AttemptId,
    r: Result<StartOutcome, AppError>,
)
    requires
        start_outcome(user, quiz, quiz_id, questions, existing, now, attempt_id, r),
    ensures
        r matches Ok(StartOutcome::Created(a)) ==> a.started_at == now && a.expires_at
            == a.started_at + quiz->0.attempt_duration_minutes * MICROS_PER_MINUTE
            && quiz->0.starts_at <= now && existing is None,
        r matches Ok(StartOutcome::Resumed(b)) ==> existing == Some(b),
{
}

/// The ids of a list of questions, shuffled.
pub fn shuffled_question_order(questions: &[Question]) -> (r: Vec<u128>)
    ensures
        r@.to_multiset() == crate::attempts::questions::question_ids_of(questions@).to_multiset(),
        r@.len() == questions@.len(),
{
    let mut ids: Vec<u128> = Vec::new();
    let mut k: usize = 0;
    while k < questions.len()
        invariant
            k <= questions@.len(),
            ids@ == crate::attempts::questions::question_ids_of(questions@.take(k as int)),
        decreases questions@.len() - k,
    {
        proof {
            assert(questions@.take(k as int + 1).drop_last() == questions@.take(k as int));
        }
        ids.push(questions[k].id);
        k = k + 1;
    }
    proof {
        assert(questions@.take(questions@.len() as int) == questions@);
        crate::attempts::questions::lemma_ids_of(questions@);
    }
    shuffle_ids(&mut ids);
    ids
}

/// Whether `views` are the views of the questions of `order` found in the
/// list, in order.
pub open spec fn shows_ordered(views: Seq<QuestionView>, order: Seq<u128>, qs: Seq<Question>) -> bool {
    &&& views.len() == evaluated_ids(order, qs).len()
    &&& forall|i: int|
        0 <= i < views.len() ==> shows_question(
            #[trigger] views[i],
            first_question(qs, evaluated_ids(order, qs)[i])->0,
        )
}

impl AttemptService {
    /// The view of an attempt, with the quiz's questions in the attempt's
    /// order (ids that name no question are left out) and the answers given
    /// so far.
    pub fn build_snapshot(&self, questions: &[Question], attempt: &Attempt, answers: Vec<AttemptAnswer>) -> (r: (
        AttemptSnapshotView,
        Vec<QuestionView>,
        Vec<AttemptAnswer>,
    ))
        ensures
            r.2@ == answers@,
            r.0 == (AttemptSnapshotView {
                attempt_id: attempt.id,
                quiz_id: attempt.quiz_id,
                started_at: attempt.started_at,
                expires_at: attempt.expires_at,
                submitted_at: attempt.submitted_at,
                status: status_of(attempt.submitted_at),
            }),
            shows_ordered(r.1@, attempt.question_order@, questions@),
    {
        let ghost order = attempt.question_order@;
        let mut ordered: Vec<QuestionView> = Vec::new();
        let mut i: usize = 0;
        while i < attempt.question_order.len()
            invariant
                i <= order.len(),
                order == attempt.question_order@,
                shows_ordered(ordered@, order.take(i as int), questions@),
            decreases order.len() - i,
        {
            let id = attempt.question_order[i];
            proof {
                assert(order.take(i as int + 1).drop_last() == order.take(i as int));
                assert(order.take(i as int + 1).last() == id);
            }
            match find_question(questions, id) {
                None => {},
                Some(q) => {
                    ordered.push(QuestionView::from(q));
                },
            }
            i = i + 1;
        }
        proof {
            assert(order.take(order.len() as int) == order);
        }
        (AttemptSnapshotView::from(attempt), ordered, answers)
    }

    /// Starts or resumes the student's attempt at a quiz at instant `now`.
    /// `quiz` is the quiz stored under `quiz_id`, `questions` its questions,
    /// `existing` the student's attempt at it if any, `attempt_id` the id a
    /// new attempt gets. A new attempt takes all the quiz's questions in
    /// random order.
    pub fn start_attempt_at(
        &self,
        current_user: &User,
        quiz: Option<Quiz>,
        quiz_id: QuizId,
        questions: &[Question],
        existing: Option<Attempt>,
        now: Timestamp,
        attempt_id: AttemptId,
    ) -> (r: Result<StartOutcome, AppError>)
        requires
            valid_instant(now as int),
        ensures
            start_outcome(*current_user, quiz, quiz_id, questions@, existing, now, attempt_id, r),
    {
        match self.policy.can_start_attempt(current_user) {
            Err(e) => {
                return Err(AppError::Attempt(e));
            },
            Ok(()) => {},
        }
        let quiz = match quiz {
            None => {
                return Err(AppError::Attempt(AttemptError::NotFound(quiz_id)));
            },
            Some(q) => q,
        };
        if quiz.closed_at.is_some() {
            return Err(AppError::Quiz(QuizError::Closed));
        }
        if now < quiz.starts_at {
            return Err(AppError::Attempt(AttemptError::QuizNotStarted));
        }
        match existing {
            Some(attempt) => {
                if attempt.submitted_at.is_some() {
                    return Err(AppError::Attempt(AttemptError::AlreadySubmitted));
                }
                return Ok(StartOutcome::Resumed(attempt));
            },
            None => {},
        }
        let question_order = shuffled_question_order(questions);
        let expires_at = now + (quiz.attempt_duration_minutes as i64) * MICROS_PER_MINUTE;
        Ok(
            StartOutcome::Created(
                Attempt {
                    id: attempt_id,
                    student_id: current_user.id,
                    quiz_id,
                    question_order,
                    score: None,
                    started_at: now,
                    expires_at,
                    submitted_at: None,
                    results_viewed_at: None,
                    deleted_at: None,
                },
            ),
        )
    }

    /// `start_attempt_at` now, with a fresh random id for a new attempt.
    pub fn start_attempt(
        &self,
        current_user: &User,
        quiz: Option<Quiz>,
        quiz_id: QuizId,
        questions: &[Question],
        existing: Option<Attempt>,
    ) -> (r: Result<StartOutcome, AppError>)
        ensures
            current_user.role != UserRole::Student ==> r matches Err(
                AppError::Attempt(AttemptError::Forbidden),
            ),
            current_user.role == UserRole::Student && quiz is None ==> (r matches Err(
                AppError::Attempt(AttemptError::NotFound(id)),
            ) && id == quiz_id),
            current_user.role == UserRole::Student && quiz is Some && quiz->0.closed_at is Some
                ==> r matches Err(AppError::Quiz(QuizError::Closed)),
            r matches Ok(StartOutcome::Resumed(b)) ==> existing == Some(b) && b.submitted_at is None,
            r matches Ok(StartOutcome::Created(a)) ==> existing is None && a.student_id
                == current_user.id && a.quiz_id == quiz_id && a.submitted_at is None,
            exists|now: Timestamp, attempt_id: AttemptId|
                valid_instant(now as int) && #[trigger] start_outcome(
                    *current_user,
                    quiz,
                    quiz_id,
                    questions@,
                    existing,
                    now,
                    attempt_id,
                    r,
                ),
    {
        let now = now_micros();
        let id = new_uuid();
        let r = self.start_attempt_at(current_user, quiz, quiz_id, questions, existing, now, id);
        assert(start_outcome(*current_user, quiz, quiz_id, questions@, existing, now, id, r));
        r
    }

    /// The student's attempt in progress at a quiz, if any. Only students
    /// have attempts.
    pub fn get_active_attempt_for_quiz(
        &self,
        current_user: &User,
        quiz_id: QuizId,
        found: Option<Attempt>,
    ) -> (r: Result<Attempt, AttemptError>)
        ensures
            current_user.role != UserRole::Student ==> r == Err::<Attempt, AttemptError>(
                AttemptError::Forbidden,
            ),
            current_user.role == UserRole::Student ==> match found {
                None => r == Err::<Attempt, AttemptError>(
                    AttemptError::ActiveAttemptNotFound(quiz_id),
                ),
                Some(a) => r == Ok::<Attempt, AttemptError>(a),
            },
    {
        match self.policy.can_start_attempt(current_user) {
            Err(e) => {
                return Err(e);
            },
            Ok(()) => {},
        }
        match found {
            None => Err(AttemptError::ActiveAttemptNotFound(quiz_id)),
            Some(a) => Ok(a),
        }
    }

    /// The attempt stored under `attempt_id`, as the database `found` it,
    /// if it belongs to the user.
    pub fn require_attempt_owner(&self, current_user: &User, attempt_id: AttemptId, found: Option<Attempt>) -> (r:
        Result<Attempt, AttemptError>)
        ensures
            match found {
                None => r == Err::<Attempt, AttemptError>(AttemptError::NotFound(attempt_id)),
                Some(a) => if a.student_id == current_user.id {
                    r == Ok::<Attempt, AttemptError>(a)
                } else {
                    r == Err::<Attempt, AttemptError>(AttemptError::Forbidden)
                },
            },
    {
        let attempt = match found {
            None => {
                return Err(AttemptError::NotFound(attempt_id));
            },
            Some(a) => a,
        };
        match self.policy.can_access_attempt(current_user, &attempt) {
            Err(e) => {
                return Err(e);
            },
            Ok(()) => {},
        }
        Ok(attempt)
    }

    /// The quiz stored under `quiz_id`, as the database `found` it.
    pub fn require_quiz(&self, quiz_id: QuizId, found: Option<Quiz>) -> (r: Result<Quiz, AttemptError>)
        ensures
            match found {
                None => r == Err::<Quiz, AttemptError>(AttemptError::NotFound(quiz_id)),
                Some(q) => r == Ok::<Quiz, AttemptError>(q),
            },
    {
        match found {
            None => Err(AttemptError::NotFound(quiz_id)),
            Some(q) => Ok(q),
        }
    }

    /// The answer to store for a question of an attempt, at instant `now`:
    /// the attempt must be the user's and open, its quiz must exist, the
    /// question must be one of the attempt's and of the quiz's questions,
    /// and the index must name one of its options.
    pub fn save_answer_at(
        &self,
        current_user: &User,
        attempt_id: AttemptId,
        found: Option<Attempt>,
        quiz: Option<Quiz>,
        questions: &[Question],
        question_id: u128,
        answer_index: i16,
        certainty_level: Option<CertaintyLevel>,
        now: Timestamp,
    ) -> (r: Result<AttemptAnswer, AttemptError>)
        ensures
            owner_answer_outcome(
                *current_user,
                attempt_id,
                found,
                quiz,
                questions@,
                question_id,
                answer_index,
                certainty_level,
                now,
                r,
            ),
    {
        let attempt = match self.require_attempt_owner(current_user, attempt_id, found) {
            Err(e) => {
                return Err(e);
            },
            Ok(a) => a,
        };
        match self.require_quiz(attempt.quiz_id, quiz) {
            Err(e) => {
                return Err(e);
            },
            Ok(_) => {},
        }
        match self.policy.can_submit_attempt_at(current_user, &attempt, now) {
            Err(e) => {
                return Err(e);
            },
            Ok(()) => {},
        }
        let mut listed = false;
        let mut i: usize = 0;
        while i < attempt.question_order.len()
            invariant
                i <= attempt.question_order@.len(),
                listed <==> exists|j: int|
                    0 <= j < i && #[trigger] attempt.question_order@[j] == question_id,
            decreases attempt.question_order@.len() - i,
        {
            if attempt.question_order[i] == question_id {
                listed = true;
            }
            i = i + 1;
        }
        if !listed {
            return Err(AttemptError::QuestionNotInAttempt(question_id));
        }
        let question = match find_question(questions, question_id) {
            None => {
                return Err(AttemptError::QuestionNotInAttempt(question_id));
            },
            Some(q) => q,
        };
        if answer_index < 0 || (answer_index as usize) >= question.options.len() {
            return Err(AttemptError::InvalidAnswerIndex);
        }
        Ok(AttemptAnswer { attempt_id: attempt.id, question_id, answer_index, certainty_level })
    }

    /// `save_answer_at` now. The owner, quiz, question and index checks do
    /// not depend on the instant; only whether the attempt is still open
    /// does.
    pub fn save_answer(
        &self,
        current_user: &User,
        attempt_id: AttemptId,
        found: Option<Attempt>,
        quiz: Option<Quiz>,
        questions: &[Question],
        question_id: u128,
        answer_index: i16,
        certainty_level: Option<CertaintyLevel>,
    ) -> (r: Result<AttemptAnswer, AttemptError>)
        ensures
            found is None ==> r == Err::<AttemptAnswer, AttemptError>(AttemptError::NotFound(attempt_id)),
            found matches Some(a) && a.student_id != current_user.id ==> r == Err::<
                AttemptAnswer,
                AttemptError,
            >(AttemptError::Forbidden),
            found matches Some(a) ==> (a.student_id == current_user.id && quiz is None ==> r
                == Err::<AttemptAnswer, AttemptError>(AttemptError::NotFound(a.quiz_id))),
            exists|now: Timestamp|
                valid_instant(now as int) && #[trigger] owner_answer_outcome(
                    *current_user,
                    attempt_id,
                    found,
                    quiz,
                    questions@,
                    question_id,
                    answer_index,
                    certainty_level,
                    now,
                    r,
                ),
    {
        let now = now_micros();
        let r = self.save_answer_at(
            current_user,
            attempt_id,
            found,
            quiz,
            questions,
            question_id,
            answer_index,
            certainty_level,
            now,
        );
        assert(owner_answer_outcome(
            *current_user,
            attempt_id,
            found,
            quiz,
            questions@,
            question_id,
            answer_index,
            certainty_level,
            now,
            r,
        ));
        r
    }

    /// Whether the results of an attempt may be shown: only once it is
    /// handed in, its results released, and not yet viewed.
    pub fn check_result_access(
        &self,
        submitted_at: Option<Timestamp>,
        results_released_at: Option<Timestamp>,
        results_viewed_at: Option<Timestamp>,
    ) -> (r: Result<(), AttemptError>)
        ensures
            submitted_at is None ==> r == Err::<(), AttemptError>(AttemptError::NotSubmitted),
            submitted_at is Some && results_released_at is None ==> r == Err::<(), AttemptError>(
                AttemptError::ResultsNotAvailable,
            ),
            submitted_at is Some && results_released_at is Some && results_viewed_at is Some ==> r
                == Err::<(), AttemptError>(AttemptError::ResultAlreadyViewed),
            r is Ok <==> submitted_at is Some && results_released_at is Some && results_viewed_at
                is None,
    {
        if submitted_at.is_none() {
            return Err(AttemptError::NotSubmitted);
        }
        if results_released_at.is_none() {
            return Err(AttemptError::ResultsNotAvailable);
        }
        if results_viewed_at.is_some() {
            return Err(AttemptError::ResultAlreadyViewed);
        }
        Ok(())
    }

    /// The refusal when marking the results viewed found them already
    /// viewed: after looking the attempt up again, it is gone, its results
    /// are not released, or they were viewed meanwhile.
    pub fn explain_lost_view(
        &self,
        attempt_id: AttemptId,
        recheck: Option<Option<Timestamp>>,
    ) -> (e: AttemptError)
        ensures
            e == match recheck {
                None => AttemptError::NotFound(attempt_id),
                Some(None) => AttemptError::ResultsNotAvailable,
                Some(Some(_)) => AttemptError::ResultAlreadyViewed,
            },
    {
        match recheck {
            None => AttemptError::NotFound(attempt_id),
            Some(released) => if released.is_none() {
                AttemptError::ResultsNotAvailable
            } else {
                AttemptError::ResultAlreadyViewed
            },
        }
    }

    /// Whether an attempt must be evaluated again: when its grade, score,
    /// maximum score or evaluation time is missing.
    pub fn needs_evaluation(
        &self,
        has_grade: bool,
        has_score: bool,
        has_score_max: bool,
        has_evaluated_at: bool,
    ) -> (r: bool)
        ensures
            r == !(has_grade && has_score && has_score_max && has_evaluated_at),
    {
        !has_grade || !has_score || !has_score_max || !has_evaluated_at
    }
}

/// The integral part of the view of an attempt's results. The grade, a
/// floating-point number, is added by the server.
#[derive(Clone, Debug)]
pub struct AttemptResultSummary {
    pub attempt_id: AttemptId,
    pub quiz_id: QuizId,
    pub status: AttemptStatus,
    pub submitted_at: Timestamp,
    pub evaluated_at: Timestamp,
    pub score_points: i64,
    pub score_points_max: i64,
    pub results_released_at: Timestamp,
    pub results_viewed_at: Option<Timestamp>,
    pub questions: Vec<AttemptQuestionResultView>,
}

/// What is stored of an attempt's evaluation and of the release of its
/// results.
#[derive(Clone, Copy, Debug, PartialEq, Eq, Structural)]
pub struct EvaluationRecord {
    pub score_points: Option<i64>,
    pub score_points_max: Option<i64>,
    pub evaluated_at: Option<Timestamp>,
    pub results_released_at: Option<Timestamp>,
    pub updated_at: Timestamp,
}

/// What closing a quiz decides: the quiz as closed, the attempts that were
/// still in progress as handed in, and the evaluation of each of them.
#[derive(Clone, Debug)]
pub struct FinalizedQuiz {
    pub quiz: Quiz,
    pub attempts: Vec<Attempt>,
    pub evaluations: Vec<AttemptEvaluation>,
    /// For each attempt handed in before, its evaluation where what is
    /// stored of it lacks one, else `None`.
    pub late_evaluations: Vec<Option<AttemptEvaluation>>,
}

/// Whether what is stored of a handed-in attempt lacks its evaluation: its
/// grade (`graded`), score, maximum score or evaluation time is missing.
pub open spec fn lacks_evaluation(graded: bool, stored: EvaluationRecord) -> bool {
    !(graded && stored.score_points is Some && stored.score_points_max is Some
        && stored.evaluated_at is Some)
}

/// `b` is attempt `a` handed in at `now`, all else unchanged.
pub open spec fn handed_in(a: Attempt, b: Attempt, now: Timestamp) -> bool {
    &&& b.id == a.id
    &&& b.student_id == a.student_id
    &&& b.quiz_id == a.quiz_id
    &&& b.question_order@ == a.question_order@
    &&& b.score == a.score
    &&& b.started_at == a.started_at
    &&& b.expires_at == a.expires_at
    &&& b.submitted_at == Some(now)
    &&& b.results_viewed_at == a.results_viewed_at
    &&& b.deleted_at == a.deleted_at
}

/// `q2` is quiz `q` closed at `now`, unless it was closed already.
pub open spec fn closed_quiz(q: Quiz, q2: Quiz, now: Timestamp) -> bool {
    &&& q2.id == q.id
    &&& q2.course_id == q.course_id
    &&& q2.snapshot_id == q.snapshot_id
    &&& q2.title@ == q.title@
    &&& q2.kind == q.kind
    &&& q2.join_code@ == q.join_code@
    &&& q2.question_count == q.question_count
    &&& q2.certainty_table == q.certainty_table
    &&& q2.attempt_duration_minutes == q.attempt_duration_minutes
    &&& q2.starts_at == q.starts_at
    &&& q2.closed_at == Some(or_else(q.closed_at, now))
    &&& q2.created_at == q.created_at
    &&& q2.deleted_at == q.deleted_at
}

/// `e` is the evaluation of an attempt with order `order` and answers
/// `answers` against `questions` under `table`.
pub open spec fn evaluates(
    e: AttemptEvaluation,
    questions: Seq<Question>,
    table: Option<CertaintyTable>,
    order: Seq<u128>,
    answers: Seq<AttemptAnswer>,
) -> bool {
    &&& e.score_points_max == order.len() * max_points_per_question(table)
    &&& e.score_points == evaluated_score(order, questions, answers, table)
    &&& e.questions@.len() == evaluated_ids(order, questions).len()
}

/// Whether a stored value is present, else the fallback.
pub open spec fn or_else<T>(v: Option<T>, fallback: T) -> T {
    match v {
        Some(x) => x,
        None => fallback,
    }
}

/// A stored number where it is stored, else the fallback.
pub open spec fn stored_or(v: Option<i64>, fallback: int) -> int {
    match v {
        Some(x) => x as int,
        None => fallback,
    }
}

/// `r` is the result view of `attempt` at quiz `quiz_id`: the stored
/// score, maximum and times where they are stored, else the fresh scores
/// `points` and `points_max` and the time of the last change; results are
/// released no earlier than evaluated.
pub open spec fn summarizes(
    r: AttemptResultSummary,
    quiz_id: QuizId,
    attempt: Attempt,
    stored: EvaluationRecord,
    points: int,
    points_max: int,
) -> bool {
    &&& r.attempt_id == attempt.id
    &&& r.quiz_id == quiz_id
    &&& r.status == status_of(attempt.submitted_at)
    &&& r.submitted_at == or_else(attempt.submitted_at, stored.updated_at)
    &&& r.evaluated_at == or_else(stored.evaluated_at, stored.updated_at)
    &&& r.results_released_at == or_else(
        stored.results_released_at,
        or_else(stored.evaluated_at, stored.updated_at),
    )
    &&& r.score_points == stored_or(stored.score_points, points)
    &&& r.score_points_max == stored_or(stored.score_points_max, points_max)
    &&& r.results_viewed_at == attempt.results_viewed_at
}

/// The checks before a student's result at quiz `quiz_id` is shown, in
/// order: only students, the student's attempt must exist and be handed in,
/// the quiz must exist, the results must be released and not yet viewed.
pub open spec fn student_result_check(
    user: User,
    quiz_id: QuizId,
    found: Option<Attempt>,
    quiz_exists: bool,
    results_released_at: Option<Timestamp>,
) -> Result<Attempt, AttemptError> {
    if user.role != UserRole::Student {
        Err(AttemptError::Forbidden)
    } else {
        match found {
            None => Err(AttemptError::NotFound(quiz_id)),
            Some(a) => if a.submitted_at is None {
                Err(AttemptError::NotSubmitted)
            } else if !quiz_exists {
                Err(AttemptError::NotFound(quiz_id))
            } else if results_released_at is None {
                Err(AttemptError::ResultsNotAvailable)
            } else if a.results_viewed_at is Some {
                Err(AttemptError::ResultAlreadyViewed)
            } else {
                Ok(a)
            },
        }
    }
}

/// The checks before the owner of attempt `attempt_id` sees its result, in
/// order: the attempt must exist and be the user's, be handed in, and have
/// its results released and not yet viewed.
pub open spec fn owner_result_check(
    user: User,
    attempt_id: AttemptId,
    found: Option<Attempt>,
    results_released_at: Option<Timestamp>,
) -> Result<Attempt, AttemptError> {
    match found {
        None => Err(AttemptError::NotFound(attempt_id)),
        Some(a) => if a.student_id != user.id {
            Err(AttemptError::Forbidden)
        } else if a.submitted_at is None {
            Err(AttemptError::NotSubmitted)
        } else if results_released_at is None {
            Err(AttemptError::ResultsNotAvailable)
        } else if a.results_viewed_at is Some {
            Err(AttemptError::ResultAlreadyViewed)
        } else {
            Ok(a)
        },
    }
}

/// A result is shown once: an attempt that showing its result marked as
/// viewed is refused with `ResultAlreadyViewed` by the next request, to the
/// student at its quiz and to its owner, whatever else holds.
pub proof fn lemma_result_shown_once(
    user: User,
    quiz_id: QuizId,
    found: Option<Attempt>,
    quiz_exists: bool,
    released: Option<Timestamp>,
    viewed: Attempt,
    now: Timestamp,
    released_later: Timestamp,
)
    requires
        student_result_check(user, quiz_id, found, quiz_exists, released) matches Ok(a)
            && viewed.submitted_at == a.submitted_at,
        viewed.results_viewed_at == Some(now),
    ensures
        student_result_check(user, quiz_id, Some(viewed), true, Some(released_later))
            == Err::<Attempt, AttemptError>(AttemptError::ResultAlreadyViewed),
        viewed.student_id == user.id ==> owner_result_check(
            user,
            viewed.id,
            Some(viewed),
            Some(released_later),
        ) == Err::<Attempt, AttemptError>(AttemptError::ResultAlreadyViewed),
{
}

impl AttemptService {
    /// Whether the student may see their result at quiz `quiz_id`, given
    /// their attempt as the database `found` it, whether the quiz exists and
    /// when its results were released.
    pub fn result_for_student_check(
        &self,
        current_user: &User,
        quiz_id: QuizId,
        found: Option<Attempt>,
        quiz_exists: bool,
        results_released_at: Option<Timestamp>,
    ) -> (r: Result<Attempt, AttemptError>)
        ensures
            r == student_result_check(*current_user, quiz_id, found, quiz_exists, results_released_at),
    {
        match self.policy.can_start_attempt(current_user) {
            Err(e) => {
                return Err(e);
            },
            Ok(()) => {},
        }
        let attempt = match found {
            None => {
                return Err(AttemptError::NotFound(quiz_id));
            },
            Some(a) => a,
        };
        if attempt.submitted_at.is_none() {
            return Err(AttemptError::NotSubmitted);
        }
        if !quiz_exists {
            return Err(AttemptError::NotFound(quiz_id));
        }
        match self.check_result_access(attempt.submitted_at, results_released_at, attempt.results_viewed_at) {
            Err(e) => {
                return Err(e);
            },
            Ok(()) => {},
        }
        Ok(attempt)
    }

    /// Whether the owner of attempt `attempt_id` may see its result, given
    /// the attempt as the database `found` it and when its results were
    /// released.
    pub fn result_for_owner_check(
        &self,
        current_user: &User,
        attempt_id: AttemptId,
        found: Option<Attempt>,
        results_released_at: Option<Timestamp>,
    ) -> (r: Result<Attempt, AttemptError>)
        ensures
            r == owner_result_check(*current_user, attempt_id, found, results_released_at),
    {
        let attempt = match self.require_attempt_owner(current_user, attempt_id, found) {
            Err(e) => {
                return Err(e);
            },
            Ok(a) => a,
        };
        match self.check_result_access(attempt.submitted_at, results_released_at, attempt.results_viewed_at) {
            Err(e) => {
                return Err(e);
            },
            Ok(()) => {},
        }
        Ok(attempt)
    }

    /// Shows a student their result at quiz `quiz_id` once: after the checks
    /// of `result_for_student_check`, the attempt is marked as viewed at
    /// `now`, evaluated against the quiz's questions and `answers`, and its
    /// result view built from what is `stored` of it.
    pub fn result_for_student_at(
        &self,
        current_user: &User,
        quiz_id: QuizId,
        found: Option<Attempt>,
        quiz: Option<Quiz>,
        results_released_at: Option<Timestamp>,
        questions: &[Question],
        answers: &[AttemptAnswer],
        stored: EvaluationRecord,
        now: Timestamp,
    ) -> (r: Result<(Attempt, AttemptResultSummary), AttemptError>)
        requires
            found matches Some(a) ==> a.question_order@.len() <= 0x40_0000_0000,
        ensures
            match student_result_check(*current_user, quiz_id, found, quiz is Some, results_released_at) {
                Err(e) => r == Err::<(Attempt, AttemptResultSummary), AttemptError>(e),
                Ok(a) => r matches Ok((viewed, view)) && {
                    let table = quiz->0.certainty_table;
                    &&& viewed.id == a.id
                    &&& viewed.student_id == a.student_id
                    &&& viewed.quiz_id == a.quiz_id
                    &&& viewed.question_order@ == a.question_order@
                    &&& viewed.score == a.score
                    &&& viewed.started_at == a.started_at
                    &&& viewed.expires_at == a.expires_at
                    &&& viewed.submitted_at == a.submitted_at
                    &&& viewed.results_viewed_at == Some(now)
                    &&& viewed.deleted_at == a.deleted_at
                    &&& summarizes(
                        view,
                        quiz_id,
                        viewed,
                        stored,
                        evaluated_score(a.question_order@, questions@, answers@, table),
                        a.question_order@.len() * max_points_per_question(table),
                    )
                    &&& view.questions@.len() == evaluated_ids(a.question_order@, questions@).len()
                },
            },
    {
        let quiz_exists = quiz.is_some();
        let attempt = match self.result_for_student_check(
            current_user,
            quiz_id,
            found,
            quiz_exists,
            results_released_at,
        ) {
            Err(e) => {
                return Err(e);
            },
            Ok(a) => a,
        };
        let table = match &quiz {
            Some(q) => q.certainty_table,
            None => None,
        };
        let viewed = Attempt { results_viewed_at: Some(now), ..attempt };
        let evaluation = self.evaluate_attempt(
            questions,
            table,
            viewed.question_order.as_slice(),
            answers,
        );
        let view = self.build_result_view(quiz_id, &viewed, stored, evaluation);
        Ok((viewed, view))
    }

    /// Shows the owner of attempt `attempt_id` its result once: after the
    /// checks of `result_for_owner_check`, the attempt is marked as viewed at
    /// `now`; its quiz must exist; it is evaluated against the quiz's
    /// questions and `answers`, and its result view built from what is
    /// `stored` of it.
    pub fn result_for_owner_at(
        &self,
        current_user: &User,
        attempt_id: AttemptId,
        found: Option<Attempt>,
        results_released_at: Option<Timestamp>,
        quiz: Option<Quiz>,
        questions: &[Question],
        answers: &[AttemptAnswer],
        stored: EvaluationRecord,
        now: Timestamp,
    ) -> (r: Result<(Attempt, AttemptResultSummary), AttemptError>)
        requires
            found matches Some(a) ==> a.question_order@.len() <= 0x40_0000_0000,
        ensures
            match owner_result_check(*current_user, attempt_id, found, results_released_at) {
                Err(e) => r == Err::<(Attempt, AttemptResultSummary), AttemptError>(e),
                Ok(a) => match quiz {
                    None => r == Err::<(Attempt, AttemptResultSummary), AttemptError>(
                        AttemptError::NotFound(a.quiz_id),
                    ),
                    Some(q) => r matches Ok((viewed, view)) && {
                        &&& viewed.id == a.id
                        &&& viewed.student_id == a.student_id
                        &&& viewed.quiz_id == a.quiz_id
                        &&& viewed.question_order@ == a.question_order@
                        &&& viewed.score == a.score
                        &&& viewed.started_at == a.started_at
                        &&& viewed.expires_at == a.expires_at
                        &&& viewed.submitted_at == a.submitted_at
                        &&& viewed.results_viewed_at == Some(now)
                        &&& viewed.deleted_at == a.deleted_at
                        &&& summarizes(
                            view,
                            a.quiz_id,
                            viewed,
                            stored,
                            evaluated_score(a.question_order@, questions@, answers@, q.certainty_table),
                            a.question_order@.len() * max_points_per_question(q.certainty_table),
                        )
                        &&& view.questions@.len() == evaluated_ids(a.question_order@, questions@).len()
                    },
                },
            },
    {
        let attempt = match self.result_for_owner_check(current_user, attempt_id, found, results_released_at) {
            Err(e) => {
                return Err(e);
            },
            Ok(a) => a,
        };
        let viewed = Attempt { results_viewed_at: Some(now), ..attempt };
        let table = match &quiz {
            None => {
                return Err(AttemptError::NotFound(viewed.quiz_id));
            },
            Some(q) => q.certainty_table,
        };
        let evaluation = self.evaluate_attempt(
            questions,
            table,
            viewed.question_order.as_slice(),
            answers,
        );
        let quiz_id = viewed.quiz_id;
        let view = self.build_result_view(quiz_id, &viewed, stored, evaluation);
        Ok((viewed, view))
    }

    /// Closes quiz `quiz_id` at `now`, if the user may manage it, and hands
    /// in each attempt still in progress: it is submitted at `now` and
    /// evaluated against the quiz's questions and its own answers
    /// (`answers[i]` belongs to `in_progress[i]`). Each attempt handed in
    /// before whose stored evaluation is incomplete (`graded[i]` and
    /// `stored[i]` tell what is stored of `submitted[i]`) is evaluated too.
    pub fn finalize_at(
        &self,
        current_user: &User,
        quiz_id: QuizId,
        found: Option<Quiz>,
        is_member: bool,
        questions: &[Question],
        in_progress: Vec<Attempt>,
        answers: &Vec<Vec<AttemptAnswer>>,
        submitted: &Vec<Attempt>,
        graded: &Vec<bool>,
        stored: &Vec<EvaluationRecord>,
        submitted_answers: &Vec<Vec<AttemptAnswer>>,
        now: Timestamp,
    ) -> (r: Result<FinalizedQuiz, QuizError>)
        requires
            answers@.len() == in_progress@.len(),
            graded@.len() == submitted@.len(),
            stored@.len() == submitted@.len(),
            submitted_answers@.len() == submitted@.len(),
            forall|i: int|
                0 <= i < submitted@.len() ==> #[trigger] submitted@[i].question_order@.len()
                    <= 0x40_0000_0000,
            forall|i: int|
                0 <= i < in_progress@.len() ==> #[trigger] in_progress@[i].question_order@.len()
                    <= 0x40_0000_0000,
        ensures
            match found {
                None => r matches Err(e) && quiz_not_found_text(e, uuid_text(quiz_id)),
                Some(q) => if current_user.role == UserRole::Admin || is_member {
                    r matches Ok(f) && {
                        &&& closed_quiz(q, f.quiz, now)
                        &&& f.attempts@.len() == in_progress@.len()
                        &&& f.evaluations@.len() == in_progress@.len()
                        &&& forall|i: int|
                            0 <= i < in_progress@.len() ==> {
                                &&& handed_in(in_progress@[i], #[trigger] f.attempts@[i], now)
                                &&& evaluates(
                                    f.evaluations@[i],
                                    questions@,
                                    q.certainty_table,
                                    in_progress@[i].question_order@,
                                    answers@[i]@,
                                )
                            }
                        &&& f.late_evaluations@.len() == submitted@.len()
                        &&& forall|i: int|
                            0 <= i < submitted@.len() ==> match #[trigger] f.late_evaluations@[i] {
                                None => !lacks_evaluation(graded@[i], stored@[i]),
                                Some(e) => lacks_evaluation(graded@[i], stored@[i]) && evaluates(
                                    e,
                                    questions@,
                                    q.certainty_table,
                                    submitted@[i].question_order@,
                                    submitted_answers@[i]@,
                                ),
                            }
                    }
                } else {
                    r == Err::<FinalizedQuiz, QuizError>(QuizError::Forbidden)
                },
            },
    {
        let policy = QuizPolicy;
        let mut quiz = match policy.require_managed_quiz(current_user, quiz_id, found, is_member) {
            Err(e) => {
                return Err(e);
            },
            Ok(q) => q,
        };
        let ghost original = in_progress@;
        let n = in_progress.len();
        let mut rest = in_progress;
        let mut attempts: Vec<Attempt> = Vec::new();
        let mut evaluations: Vec<AttemptEvaluation> = Vec::new();
        let mut i: usize = 0;
        while i < n
            invariant
                n == original.len(),
                answers@.len() == n,
                i <= n,
                rest@ == original.subrange(i as int, n as int),
                attempts@.len() == i,
                evaluations@.len() == i,
                forall|k: int|
                    0 <= k < n ==> #[trigger] original[k].question_order@.len() <= 0x40_0000_0000,
                forall|k: int|
                    0 <= k < i ==> {
                        &&& handed_in(original[k], #[trigger] attempts@[k], now)
                        &&& evaluates(
                            evaluations@[k],
                            questions@,
                            quiz.certainty_table,
                            original[k].question_order@,
                            answers@[k]@,
                        )
                    },
            decreases n - i,
        {
            let a = rest.remove(0);
            assert(a == original[i as int]);
            let evaluation = self.evaluate_attempt(
                questions,
                quiz.certainty_table,
                a.question_order.as_slice(),
                answers[i].as_slice(),
            );
            attempts.push(Attempt { submitted_at: Some(now), ..a });
            evaluations.push(evaluation);
            i = i + 1;
        }
        let mut late_evaluations: Vec<Option<AttemptEvaluation>> = Vec::new();
        let mut j: usize = 0;
        while j < submitted.len()
            invariant
                graded@.len() == submitted@.len(),
                stored@.len() == submitted@.len(),
                submitted_answers@.len() == submitted@.len(),
                j <= submitted@.len(),
                late_evaluations@.len() == j,
                forall|k: int|
                    0 <= k < submitted@.len() ==> #[trigger] submitted@[k].question_order@.len()
                        <= 0x40_0000_0000,
                forall|k: int|
                    0 <= k < j ==> match #[trigger] late_evaluations@[k] {
                        None => !lacks_evaluation(graded@[k], stored@[k]),
                        Some(e) => lacks_evaluation(graded@[k], stored@[k]) && evaluates(
                            e,
                            questions@,
                            quiz.certainty_table,
                            submitted@[k].question_order@,
                            submitted_answers@[k]@,
                        ),
                    },
            decreases submitted@.len() - j,
        {
            let record = stored[j];
            let missing = self.needs_evaluation(
                graded[j],
                record.score_points.is_some(),
                record.score_points_max.is_some(),
                record.evaluated_at.is_some(),
            );
            if missing {
                let evaluation = self.evaluate_attempt(
                    questions,
                    quiz.certainty_table,
                    submitted[j].question_order.as_slice(),
                    submitted_answers[j].as_slice(),
                );
                late_evaluations.push(Some(evaluation));
            } else {
                late_evaluations.push(None);
            }
            j = j + 1;
        }
        if quiz.closed_at.is_none() {
            quiz.closed_at = Some(now);
        }
        Ok(FinalizedQuiz { quiz, attempts, evaluations, late_evaluations })
    }

    /// The view of an attempt's results: the stored score, maximum and
    /// times where they are stored, else the fresh evaluation and the time
    /// of the last change; results are released no earlier than evaluated.
    pub fn build_result_view(
        &self,
        quiz_id: QuizId,
        attempt: &Attempt,
        stored: EvaluationRecord,
        evaluation: AttemptEvaluation,
    ) -> (r: AttemptResultSummary)
        ensures
            summarizes(
                r,
                quiz_id,
                *attempt,
                stored,
                evaluation.score_points as int,
                evaluation.score_points_max as int,
            ),
            r.questions == evaluation.questions,
    {
        let submitted_at = match attempt.submitted_at {
            Some(t) => t,
            None => stored.updated_at,
        };
        let evaluated_at = match stored.evaluated_at {
            Some(t) => t,
            None => stored.updated_at,
        };
        let results_released_at = match stored.results_released_at {
            Some(t) => t,
            None => evaluated_at,
        };
        let status = if attempt.submitted_at.is_some() {
            AttemptStatus::Submitted
        } else {
            AttemptStatus::InProgress
        };
        AttemptResultSummary {
            attempt_id: attempt.id,
            quiz_id,
            status,
            submitted_at,
            evaluated_at,
            score_points: match stored.score_points {
                Some(p) => p,
                None => evaluation.score_points,
            },
            score_points_max: match stored.score_points_max {
                Some(p) => p,
                None => evaluation.score_points_max,
            },
            results_released_at,
            results_viewed_at: attempt.results_viewed_at,
            questions: evaluation.questions,
        }
    }
}

} // verus!
