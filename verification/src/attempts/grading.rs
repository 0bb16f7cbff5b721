use vstd::prelude::*;

use std::collections::HashMap;

use crate::attempts::dtos::AttemptQuestionResultView;
use crate::attempts::entity::AttemptAnswer;
use crate::banks::entity::{clone_strings, Question};
use crate::quizzes::dtos::{
    lemma_validated_table_in_range, row_in_range, table_failures, table_from_dto, table_in_range,
    CertaintyTableDto,
};
use crate::quizzes::entity::{CertaintyLevel, CertaintyTable, QuizKind};

verus! {

broadcast use vstd::std_specs::hash::group_hash_axioms;

/// The integral part of grading an attempt. The grade itself, a ratio of
/// the two scores, is computed in floating point by the server.
#[derive(Clone, Debug)]
pub struct GradingOutput {
    pub score_points: i16,
    pub score_points_max: i16,
    pub questions: Vec<AttemptQuestionResultView>,
}

/// Grades attempts.
pub struct GradingService;

/// Points of a certainty quiz: without a table one point for a correct
/// answer; with a table, nothing without a certainty level, else the table's
/// entry for the level and the correctness.
pub open spec fn certainty_points(
    table: Option<CertaintyTable>,
    level: Option<CertaintyLevel>,
    is_correct: bool,
) -> int {
    match table {
        None => if is_correct { 1 } else { 0 },
        Some(t) => match level {
            None => 0,
            Some(l) => if is_correct {
                t.row(l).correct as int
            } else {
                t.row(l).incorrect as int
            },
        },
    }
}

/// Points awarded for one question of a quiz of the given kind.
pub open spec fn awarded_points(
    kind: QuizKind,
    table: Option<CertaintyTable>,
    level: Option<CertaintyLevel>,
    is_correct: bool,
) -> int {
    match kind {
        QuizKind::Traditional => if is_correct { 1 } else { 0 },
        QuizKind::Certainty => certainty_points(table, level, is_correct),
    }
}

/// The answer that counts for a question: the last one given for it.
pub open spec fn answer_for(answers: Seq<AttemptAnswer>, question_id: u128) -> Option<AttemptAnswer>
    decreases answers.len(),
{
    if answers.len() == 0 {
        None
    } else if answers.last().question_id == question_id {
        Some(answers.last())
    } else {
        answer_for(answers.drop_last(), question_id)
    }
}

/// The certainty level of an answer, if any.
pub open spec fn level_of(a: Option<AttemptAnswer>) -> Option<CertaintyLevel> {
    match a {
        Some(x) => x.certainty_level,
        None => None,
    }
}

/// The index chosen in an answer, if any.
pub open spec fn index_of(a: Option<AttemptAnswer>) -> Option<i16> {
    match a {
        Some(x) => Some(x.answer_index),
        None => None,
    }
}

/// Whether an answer picks the question's correct option.
pub open spec fn answer_correct(a: Option<AttemptAnswer>, q: Question) -> bool {
    a matches Some(x) && x.answer_index == q.answer_index
}

/// Points for question `q`, listed under `question_id` in the attempt.
pub open spec fn question_points(
    question_id: u128,
    q: Question,
    answers: Seq<AttemptAnswer>,
    kind: QuizKind,
    table: Option<CertaintyTable>,
) -> int {
    let a = answer_for(answers, question_id);
    awarded_points(kind, table, level_of(a), answer_correct(a, q))
}

/// The ids of `order` that name a known question, in order.
pub open spec fn graded_ids(order: Seq<u128>, questions: Map<u128, Question>) -> Seq<u128>
    decreases order.len(),
{
    if order.len() == 0 {
        Seq::empty()
    } else {
        let rest = graded_ids(order.drop_last(), questions);
        if questions.contains_key(order.last()) {
            rest.push(order.last())
        } else {
            rest
        }
    }
}

/// The score of an attempt: the points of each known question of `order`,
/// summed.
pub open spec fn graded_score(
    order: Seq<u128>,
    questions: Map<u128, Question>,
    answers: Seq<AttemptAnswer>,
    kind: QuizKind,
    table: Option<CertaintyTable>,
) -> int
    decreases order.len(),
{
    if order.len() == 0 {
        0
    } else {
        graded_score(order.drop_last(), questions, answers, kind, table) + if questions.contains_key(
            order.last(),
        ) {
            question_points(order.last(), questions[order.last()], answers, kind, table)
        } else {
            0
        }
    }
}

/// Whether a result row reports question `q` answered with `a`.
pub open spec fn result_matches(
    r: AttemptQuestionResultView,
    q: Question,
    a: Option<AttemptAnswer>,
    kind: QuizKind,
    table: Option<CertaintyTable>,
) -> bool {
    &&& r.question_id == q.id
    &&& r.question@ == q.prompt@
    &&& r.options@ == q.options@
    &&& r.images@ == q.images@
    &&& r.answer_index == index_of(a)
    &&& r.correct_answer_index == q.answer_index
    &&& r.certainty_level == level_of(a)
    &&& r.is_correct == answer_correct(a, q)
    &&& r.awarded_points as int == awarded_points(kind, table, level_of(a), answer_correct(a, q))
}

/// Whether every running total of the score fits in an `i16`.
pub open spec fn score_fits(
    order: Seq<u128>,
    questions: Map<u128, Question>,
    answers: Seq<AttemptAnswer>,
    kind: QuizKind,
    table: Option<CertaintyTable>,
) -> bool {
    forall|k: int|
        0 <= k <= order.len() ==> i16::MIN <= #[trigger] graded_score(
            order.take(k),
            questions,
            answers,
            kind,
            table,
        ) <= i16::MAX
}

/// The last answer given for a question.
pub fn find_answer(answers: &[AttemptAnswer], question_id: u128) -> (r: Option<AttemptAnswer>)
    ensures
        r == answer_for(answers@, question_id),
{
    let mut j: usize = answers.len();
    proof {
        assert(answers@.take(j as int) == answers@);
    }
    while j > 0
        invariant
            j <= answers@.len(),
            answer_for(answers@, question_id) == answer_for(answers@.take(j as int), question_id),
        decreases j,
    {
        let a = answers[j - 1];
        proof {
            assert(answers@.take(j as int).drop_last() == answers@.take(j - 1));
        }
        if a.question_id == question_id {
            return Some(a);
        }
        j = j - 1;
    }
    None
}

/// Points for the question listed under `question_id`, nothing when it
/// names no known question.
fn points_for(
    grading: &GradingService,
    question_id: u128,
    questions_by_id: &HashMap<u128, Question>,
    answers: &[AttemptAnswer],
    quiz_kind: QuizKind,
    certainty_table: &Option<CertaintyTable>,
) -> (p: i16)
    ensures
        p as int == if questions_by_id@.contains_key(question_id) {
            question_points(question_id, questions_by_id@[question_id], answers@, quiz_kind, *certainty_table)
        } else {
            0
        },
{
    match questions_by_id.get(&question_id) {
        None => 0,
        Some(question) => {
            let answer = find_answer(answers, question_id);
            let is_correct = match answer {
                Some(a) => a.answer_index == question.answer_index,
                None => false,
            };
            let level = match answer {
                Some(a) => a.certainty_level,
                None => None,
            };
            match quiz_kind {
                QuizKind::Traditional => if is_correct {
                    1
                } else {
                    0
                },
                QuizKind::Certainty => grading.awarded_points_for_certainty(is_correct, level, certainty_table),
            }
        },
    }
}

/// Whether every running total of an attempt's score fits in an `i16`,
/// as grading needs.
pub fn score_fits_check(
    question_order: &[u128],
    questions_by_id: &HashMap<u128, Question>,
    answers: &[AttemptAnswer],
    quiz_kind: QuizKind,
    certainty_table: Option<CertaintyTable>,
) -> (r: bool)
    ensures
        r == score_fits(question_order@, questions_by_id@, answers@, quiz_kind, certainty_table),
{
    let ghost order = question_order@;
    let ghost qs = questions_by_id@;
    let grading = GradingService;
    let mut total: i32 = 0;
    let mut i: usize = 0;
    proof {
        assert(order.take(0) =~= Seq::<u128>::empty());
    }
    while i < question_order.len()
        invariant
            i <= order.len(),
            order == question_order@,
            qs == questions_by_id@,
            total as int == graded_score(order.take(i as int), qs, answers@, quiz_kind, certainty_table),
            forall|k: int|
                0 <= k <= i ==> i16::MIN <= #[trigger] graded_score(
                    order.take(k),
                    qs,
                    answers@,
                    quiz_kind,
                    certainty_table,
                ) <= i16::MAX,
        decreases order.len() - i,
    {
        let id = question_order[i];
        proof {
            assert(order.take(i as int + 1).drop_last() == order.take(i as int));
            assert(order.take(i as int + 1).last() == id);
            assert(i16::MIN <= graded_score(order.take(i as int), qs, answers@, quiz_kind, certainty_table) <= i16::MAX);
        }
        let p = points_for(&grading, id, questions_by_id, answers, quiz_kind, &certainty_table);
        total = total + p as i32;
        if total < -32768 || total > 32767 {
            proof {
                assert(!(i16::MIN <= graded_score(
                    order.take(i as int + 1),
                    qs,
                    answers@,
                    quiz_kind,
                    certainty_table,
                ) <= i16::MAX));
            }
            return false;
        }
        i = i + 1;
    }
    proof {
        assert(order.take(order.len() as int) == order);
        assert forall|k: int| 0 <= k <= order.len() implies i16::MIN <= #[trigger] graded_score(
            order.take(k),
            qs,
            answers@,
            quiz_kind,
            certainty_table,
        ) <= i16::MAX by {}
    }
    true
}

impl GradingService {
    /// Points for a certainty-quiz question.
    pub fn awarded_points_for_certainty(
        &self,
        is_correct: bool,
        certainty_level: Option<CertaintyLevel>,
        table: &Option<CertaintyTable>,
    ) -> (r: i16)
        ensures
            r as int == certainty_points(*table, certainty_level, is_correct),
            table is Some && certainty_level is None ==> r == 0,
            table is None ==> r == (if is_correct { 1i16 } else { 0i16 }),
    {
        let table = match table {
            Some(t) => t,
            None => {
                return if is_correct {
                    1
                } else {
                    0
                };
            },
        };
        let level = match certainty_level {
            Some(l) => l,
            None => {
                return 0;
            },
        };
        let row = table.score_for(level);
        if is_correct {
            row.correct
        } else {
            row.incorrect
        }
    }

    /// Grades an attempt: each id of `question_order` that names a known
    /// question gives one result row and its points; ids of unknown
    /// questions are skipped. The maximum score is the number of ids.
    pub fn grade_attempt(
        &self,
        question_order: &[u128],
        questions_by_id: &HashMap<u128, Question>,
        answers: &[AttemptAnswer],
        quiz_kind: QuizKind,
        certainty_table: Option<CertaintyTable>,
    ) -> (out: GradingOutput)
        requires
            score_fits(question_order@, questions_by_id@, answers@, quiz_kind, certainty_table),
        ensures
            out.score_points_max == question_order@.len() as i16,
            out.score_points as int == graded_score(
                question_order@,
                questions_by_id@,
                answers@,
                quiz_kind,
                certainty_table,
            ),
            out.questions@.len() == graded_ids(question_order@, questions_by_id@).len(),
            forall|i: int|
                0 <= i < out.questions@.len() ==> {
                    let id = graded_ids(question_order@, questions_by_id@)[i];
                    result_matches(
                        #[trigger] out.questions@[i],
                        questions_by_id@[id],
                        answer_for(answers@, id),
                        quiz_kind,
                        certainty_table,
                    )
                },
    {
        let ghost order = question_order@;
        let ghost qs = questions_by_id@;
        let mut score_points: i16 = 0;
        let score_points_max = question_order.len() as i16;
        let mut question_results: Vec<AttemptQuestionResultView> = Vec::new();
        let mut i: usize = 0;
        while i < question_order.len()
            invariant
                i <= order.len(),
                order == question_order@,
                qs == questions_by_id@,
                score_fits(order, qs, answers@, quiz_kind, certainty_table),
                score_points as int == graded_score(
                    order.take(i as int),
                    qs,
                    answers@,
                    quiz_kind,
                    certainty_table,
                ),
                question_results@.len() == graded_ids(order.take(i as int), qs).len(),
                forall|j: int|
                    0 <= j < question_results@.len() ==> {
                        let id = graded_ids(order.take(i as int), qs)[j];
                        result_matches(
                            #[trigger] question_results@[j],
                            qs[id],
                            answer_for(answers@, id),
                            quiz_kind,
                            certainty_table,
                        )
                    },
            decreases order.len() - i,
        {
            let question_id = question_order[i];
            proof {
                assert(order.take(i as int + 1).drop_last() == order.take(i as int));
                assert(order.take(i as int + 1).last() == question_id);
            }
            let found = questions_by_id.get(&question_id);
            match found {
                None => {
                    assert(!qs.contains_key(question_id));
                },
                Some(question) => {
                    assert(qs.contains_key(question_id));
                    assert(qs[question_id] == *question);
                    let answer = find_answer(answers, question_id);
                    let selected_index = match answer {
                        Some(a) => Some(a.answer_index),
                        None => None,
                    };
                    let certainty_level = match answer {
                        Some(a) => a.certainty_level,
                        None => None,
                    };
                    let is_correct = match selected_index {
                        Some(idx) => idx == question.answer_index,
                        None => false,
                    };
                    let awarded: i16 = match quiz_kind {
                        QuizKind::Traditional => if is_correct {
                            1
                        } else {
                            0
                        },
                        QuizKind::Certainty => self.awarded_points_for_certainty(
                            is_correct,
                            certainty_level,
                            &certainty_table,
                        ),
                    };
                    proof {
                        assert(0 <= i + 1 <= order.len());
                        assert(i16::MIN <= graded_score(
                            order.take(i as int + 1),
                            qs,
                            answers@,
                            quiz_kind,
                            certainty_table,
                        ) <= i16::MAX);
                    }
                    score_points = score_points + awarded;
                    let row = AttemptQuestionResultView {
                        question_id: question.id,
                        question: question.prompt.clone(),
                        options: clone_strings(&question.options),
                        images: clone_strings(&question.images),
                        answer_index: selected_index,
                        correct_answer_index: question.answer_index,
                        certainty_level,
                        is_correct,
                        awarded_points: awarded,
                    };
                    question_results.push(row);
                },
            }
            i = i + 1;
        }
        proof {
            assert(order.take(order.len() as int) == order);
        }
        GradingOutput { score_points, score_points_max, questions: question_results }
    }
}

/// An answer given after the others is the one that counts for its
/// question, and leaves the answer that counts for every other question as
/// it was.
pub proof fn lemma_latest_answer_counts(answers: Seq<AttemptAnswer>, latest: AttemptAnswer, question_id: u128)
    ensures
        answer_for(answers.push(latest), latest.question_id) == Some(latest),
        question_id != latest.question_id ==> answer_for(answers.push(latest), question_id)
            == answer_for(answers, question_id),
{
    assert(answers.push(latest).drop_last() =~= answers);
}

/// Under a certainty table, a question that carries no certainty level
/// earns nothing, whether or not its answer is correct.
pub proof fn lemma_no_level_no_points(table: CertaintyTable, is_correct: bool)
    ensures
        certainty_points(Some(table), None, is_correct) == 0,
        awarded_points(QuizKind::Certainty, Some(table), None, is_correct) == 0,
{
}

/// A question left unanswered earns nothing, in every kind of quiz and
/// under every table.
pub proof fn lemma_unanswered_earns_nothing(
    question_id: u128,
    q: Question,
    answers: Seq<AttemptAnswer>,
    kind: QuizKind,
    table: Option<CertaintyTable>,
)
    requires
        answer_for(answers, question_id) is None,
    ensures
        question_points(question_id, q, answers, kind, table) == 0,
{
}

/// Under a certainty table, a question whose answer carries no certainty
/// level, or that has no answer, earns nothing, however it was answered.
pub proof fn lemma_levelless_answer_earns_nothing(
    question_id: u128,
    q: Question,
    answers: Seq<AttemptAnswer>,
    table: CertaintyTable,
)
    requires
        level_of(answer_for(answers, question_id)) is None,
    ensures
        question_points(question_id, q, answers, QuizKind::Certainty, Some(table)) == 0,
{
}

/// Adding to an attempt a question that was left unanswered does not
/// change its score.
pub proof fn lemma_unanswered_question_adds_nothing(
    order: Seq<u128>,
    question_id: u128,
    questions: Map<u128, Question>,
    answers: Seq<AttemptAnswer>,
    kind: QuizKind,
    table: Option<CertaintyTable>,
)
    requires
        answer_for(answers, question_id) is None,
    ensures
        graded_score(order.push(question_id), questions, answers, kind, table) == graded_score(
            order,
            questions,
            answers,
            kind,
            table,
        ),
{
    assert(order.push(question_id).drop_last() =~= order);
}

/// An attempt with no answers scores nothing.
pub proof fn lemma_no_answers_score_nothing(
    order: Seq<u128>,
    questions: Map<u128, Question>,
    kind: QuizKind,
    table: Option<CertaintyTable>,
)
    ensures
        graded_score(order, questions, Seq::empty(), kind, table) == 0,
    decreases order.len(),
{
    if order.len() > 0 {
        lemma_no_answers_score_nothing(order.drop_last(), questions, kind, table);
    }
}

/// A traditional quiz gives one point for a correct answer and none
/// otherwise; a certainty quiz without a table does the same.
pub proof fn lemma_one_point_per_correct_answer(
    table: Option<CertaintyTable>,
    level: Option<CertaintyLevel>,
    is_correct: bool,
)
    ensures
        awarded_points(QuizKind::Traditional, table, level, is_correct) == (if is_correct { 1int } else { 0int }),
        certainty_points(None, level, is_correct) == (if is_correct { 1int } else { 0int }),
{
}

/// Under a table, an answer with a certainty level earns the reward of that
/// level's row when correct and its penalty when not.
pub proof fn lemma_level_row_points(table: CertaintyTable, level: CertaintyLevel, is_correct: bool)
    ensures
        level == CertaintyLevel::Low ==> certainty_points(Some(table), Some(level), is_correct) == (
        if is_correct {
            table.low.correct as int
        } else {
            table.low.incorrect as int
        }),
        level == CertaintyLevel::Medium ==> certainty_points(Some(table), Some(level), is_correct) == (
        if is_correct {
            table.medium.correct as int
        } else {
            table.medium.incorrect as int
        }),
        level == CertaintyLevel::High ==> certainty_points(Some(table), Some(level), is_correct) == (
        if is_correct {
            table.high.correct as int
        } else {
            table.high.incorrect as int
        }),
{
}

/// Whether every question of a quiz of kind `kind` with table `table`
/// earns between `lo` and `hi` points, whatever the answer.
pub open spec fn points_within(kind: QuizKind, table: Option<CertaintyTable>, lo: int, hi: int) -> bool {
    forall|level: Option<CertaintyLevel>, c: bool|
        lo <= #[trigger] awarded_points(kind, table, level, c) <= hi
}

/// Grading counts each id of the order at most once.
pub proof fn lemma_graded_ids_len(order: Seq<u128>, questions: Map<u128, Question>)
    ensures
        graded_ids(order, questions).len() <= order.len(),
    decreases order.len(),
{
    if order.len() > 0 {
        lemma_graded_ids_len(order.drop_last(), questions);
    }
}

/// When each question earns between `lo` and `hi` points, the score of an
/// attempt lies between `lo` and `hi` times the number of graded questions.
pub proof fn lemma_score_between(
    order: Seq<u128>,
    questions: Map<u128, Question>,
    answers: Seq<AttemptAnswer>,
    kind: QuizKind,
    table: Option<CertaintyTable>,
    lo: int,
    hi: int,
)
    requires
        points_within(kind, table, lo, hi),
    ensures
        lo * graded_ids(order, questions).len() <= graded_score(order, questions, answers, kind, table),
        graded_score(order, questions, answers, kind, table) <= hi * graded_ids(order, questions).len(),
    decreases order.len(),
{
    if order.len() > 0 {
        let prev = order.drop_last();
        lemma_score_between(prev, questions, answers, kind, table, lo, hi);
        let n = graded_ids(prev, questions).len() as int;
        if questions.contains_key(order.last()) {
            let a = answer_for(answers, order.last());
            let p = awarded_points(kind, table, level_of(a), answer_correct(a, questions[order.last()]));
            assert(lo <= p <= hi);
            assert(lo * (n + 1) == lo * n + lo) by (nonlinear_arith);
            assert(hi * (n + 1) == hi * n + hi) by (nonlinear_arith);
        }
    }
}

/// A traditional attempt scores at least 0 and at most its maximum, the
/// number of ids in its question order.
pub proof fn lemma_traditional_score_within_max(
    order: Seq<u128>,
    questions: Map<u128, Question>,
    answers: Seq<AttemptAnswer>,
    table: Option<CertaintyTable>,
)
    ensures
        0 <= graded_score(order, questions, answers, QuizKind::Traditional, table) <= order.len(),
{
    assert forall|level: Option<CertaintyLevel>, c: bool|
        0 <= #[trigger] awarded_points(QuizKind::Traditional, table, level, c) <= 1 by {}
    lemma_score_between(order, questions, answers, QuizKind::Traditional, table, 0, 1);
    lemma_graded_ids_len(order, questions);
}

/// Under a table whose rows are in range (or no table), a question earns
/// between -100 and 100 points, whatever the kind of the quiz.
pub proof fn lemma_points_within_hundred(kind: QuizKind, table: Option<CertaintyTable>)
    requires
        table matches Some(t) ==> table_in_range(t),
    ensures
        points_within(kind, table, -100, 100),
{
    assert forall|level: Option<CertaintyLevel>, c: bool|
        -100 <= #[trigger] awarded_points(kind, table, level, c) <= 100 by {
        match table {
            Some(t) => match level {
                Some(l) => {
                    assert(row_in_range(t.row(l)));
                },
                None => {},
            },
            None => {},
        }
    }
}

/// Grading never overflows the score of an attempt of at most 327
/// questions when the quiz's table, if it has one, was made from a
/// requested table that passed validation.
pub proof fn lemma_validated_quiz_score_fits(
    order: Seq<u128>,
    questions: Map<u128, Question>,
    answers: Seq<AttemptAnswer>,
    kind: QuizKind,
    config: Option<CertaintyTableDto>,
)
    requires
        order.len() <= 327,
        config matches Some(t) ==> table_failures(t).len() == 0,
    ensures
        score_fits(
            order,
            questions,
            answers,
            kind,
            match config {
                Some(t) => Some(table_from_dto(t)),
                None => None,
            },
        ),
{
    let table = match config {
        Some(t) => Some(table_from_dto(t)),
        None => None,
    };
    match config {
        Some(t) => {
            lemma_validated_table_in_range(t);
        },
        None => {},
    }
    lemma_points_within_hundred(kind, table);
    assert forall|k: int| 0 <= k <= order.len() implies i16::MIN <= #[trigger] graded_score(
        order.take(k),
        questions,
        answers,
        kind,
        table,
    ) <= i16::MAX by {
        lemma_score_between(order.take(k), questions, answers, kind, table, -100, 100);
        lemma_graded_ids_len(order.take(k), questions);
        let n = graded_ids(order.take(k), questions).len() as int;
        assert(0 <= n <= 327);
        assert(-100 * n >= -32700 && 100 * n <= 32700) by (nonlinear_arith)
            requires
                0 <= n <= 327,
        ;
    }
}

} // verus!
