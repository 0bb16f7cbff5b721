use vstd::prelude::*;

use std::collections::HashMap;

use crate::attempts::errors::AttemptError;
use crate::banks::entity::Question;
use crate::banks::views::{shows_question, QuestionView};
use crate::quizzes::errors::QuizError;
use crate::support::{shuffle_ids, uuid_string, uuid_text};

verus! {

broadcast use vstd::std_specs::hash::group_hash_axioms;

/// Looks questions up for attempts.
pub struct QuestionService;

/// The questions of a list by id; where an id occurs twice, the later
/// question is kept.
pub open spec fn question_map(qs: Seq<Question>) -> Map<u128, Question>
    decreases qs.len(),
{
    if qs.len() == 0 {
        Map::empty()
    } else {
        question_map(qs.drop_last()).insert(qs.last().id, qs.last())
    }
}

/// The first id of `ids` that is not in `known`, if any.
pub open spec fn first_missing(ids: Seq<u128>, known: Set<u128>) -> Option<u128>
    decreases ids.len(),
{
    if ids.len() == 0 {
        None
    } else if !known.contains(ids[0]) {
        Some(ids[0])
    } else {
        first_missing(ids.drop_first(), known)
    }
}

/// `first_missing` finds nothing exactly when every id is known.
pub proof fn lemma_first_missing(ids: Seq<u128>, known: Set<u128>)
    ensures
        first_missing(ids, known) is None <==> forall|i: int|
            0 <= i < ids.len() ==> known.contains(#[trigger] ids[i]),
        first_missing(ids, known) matches Some(x) ==> ids.contains(x) && !known.contains(x),
    decreases ids.len(),
{
    if ids.len() > 0 {
        lemma_first_missing(ids.drop_first(), known);
        if known.contains(ids[0]) {
            assert forall|i: int| 0 <= i < ids.len() && (forall|j: int|
                0 <= j < ids.drop_first().len() ==> known.contains(
                    #[trigger] ids.drop_first()[j],
                )) implies known.contains(#[trigger] ids[i]) by {
                if i > 0 {
                    assert(ids[i] == ids.drop_first()[i - 1]);
                }
            }
            match first_missing(ids, known) {
                Some(x) => {
                    let k = choose|k: int|
                        0 <= k < ids.drop_first().len() && ids.drop_first()[k] == x;
                    assert(ids[k + 1] == x);
                },
                None => {},
            }
        } else {
            assert(ids[0] == ids[0]);
        }
    }
}

/// The error for the first unknown id.
pub open spec fn missing_question_error(err: QuizError, id: u128) -> bool {
    err matches QuizError::QuestionNotFound(s) && s@ == uuid_text(id)
}

/// Finds the first id of `ids` that is not a key of `m`.
fn find_missing(ids: &[u128], m: &HashMap<u128, Question>) -> (r: Option<u128>)
    ensures
        r == first_missing(ids@, m@.dom()),
{
    let mut i: usize = 0;
    proof {
        assert(ids@.skip(0) == ids@);
    }
    while i < ids.len()
        invariant
            i <= ids@.len(),
            first_missing(ids@, m@.dom()) == first_missing(ids@.skip(i as int), m@.dom()),
        decreases ids@.len() - i,
    {
        let id = ids[i];
        proof {
            assert(ids@.skip(i as int)[0] == id);
            assert(ids@.skip(i as int).drop_first() == ids@.skip(i as int + 1));
        }
        if !m.contains_key(&id) {
            return Some(id);
        }
        i = i + 1;
    }
    proof {
        assert(ids@.skip(i as int).len() == 0);
    }
    None
}

impl QuestionService {
    /// The questions of a quiz by id. Refused with the first id of
    /// `question_ids` that names none of them.
    pub fn get_questions_by_ids(&self, questions: Vec<Question>, question_ids: &[u128]) -> (r: Result<
        HashMap<u128, Question>,
        QuizError,
    >)
        ensures
            match first_missing(question_ids@, question_map(questions@).dom()) {
                None => r matches Ok(m) && m@ == question_map(questions@),
                Some(id) => r matches Err(e) && missing_question_error(e, id),
            },
    {
        let ghost qs = questions@;
        let mut rest = questions;
        let n = rest.len();
        let mut m: HashMap<u128, Question> = HashMap::new();
        let mut k: usize = 0;
        proof {
            assert(qs.skip(0) == qs);
            assert(qs.take(0) == Seq::<Question>::empty());
        }
        while rest.len() > 0
            invariant
                n == qs.len(),
                k + rest@.len() == qs.len(),
                rest@ == qs.skip(k as int),
                m@ == question_map(qs.take(k as int)),
            decreases rest@.len(),
        {
            let q = rest.remove(0);
            proof {
                assert(q == qs[k as int]);
                assert(qs.skip(k as int).remove(0) == qs.skip(k as int + 1));
                assert(qs.take(k as int + 1).drop_last() == qs.take(k as int));
                assert(qs.take(k as int + 1).last() == q);
            }
            m.insert(q.id, q);
            k = k + 1;
        }
        proof {
            assert(qs.take(qs.len() as int) == qs);
        }
        match find_missing(question_ids, &m) {
            Some(id) => Err(QuizError::QuestionNotFound(uuid_string(id))),
            None => Ok(m),
        }
    }

    /// The student's views of the questions of a quiz, by id. Refused as
    /// `get_questions_by_ids` refuses.
    pub fn get_question_views_by_ids(&self, questions: Vec<Question>, question_ids: &[u128]) -> (r:
        Result<HashMap<u128, QuestionView>, QuizError>)
        ensures
            match first_missing(question_ids@, question_map(questions@).dom()) {
                None => r matches Ok(m) && m@.dom() == question_map(questions@).dom() && forall|
                    id: u128,
                | #[trigger] m@.contains_key(id) ==> shows_question(
                    m@[id],
                    question_map(questions@)[id],
                ),
                Some(id) => r matches Err(e) && missing_question_error(e, id),
            },
    {
        let ghost qs = questions@;
        let mut views: HashMap<u128, QuestionView> = HashMap::new();
        let mut k: usize = 0;
        while k < questions.len()
            invariant
                k <= qs.len(),
                qs == questions@,
                views@.dom() == question_map(qs.take(k as int)).dom(),
                forall|id: u128| #[trigger]
                    views@.contains_key(id) ==> shows_question(
                        views@[id],
                        question_map(qs.take(k as int))[id],
                    ),
            decreases qs.len() - k,
        {
            let q = &questions[k];
            proof {
                assert(qs.take(k as int + 1).drop_last() == qs.take(k as int));
                assert(qs.take(k as int + 1).last() == *q);
            }
            views.insert(q.id, QuestionView::from(q));
            k = k + 1;
        }
        proof {
            assert(qs.take(qs.len() as int) == qs);
        }
        match self.get_questions_by_ids(questions, question_ids) {
            Err(e) => Err(e),
            Ok(_) => Ok(views),
        }
    }

    /// The student's views of the questions named by `question_ids`, in that
    /// order. Refused as `get_questions_by_ids` refuses.
    pub fn get_ordered_question_views(&self, questions: Vec<Question>, question_ids: &[u128]) -> (r:
        Result<Vec<QuestionView>, QuizError>)
        ensures
            match first_missing(question_ids@, question_map(questions@).dom()) {
                None => r matches Ok(v) && v@.len() == question_ids@.len() && forall|i: int|
                    0 <= i < v@.len() ==> shows_question(
                        #[trigger] v@[i],
                        question_map(questions@)[question_ids@[i]],
                    ),
                Some(id) => r matches Err(e) && missing_question_error(e, id),
            },
    {
        let ghost qmap = question_map(questions@);
        let by_id = match self.get_questions_by_ids(questions, question_ids) {
            Err(e) => {
                return Err(e);
            },
            Ok(m) => m,
        };
        proof {
            lemma_first_missing(question_ids@, qmap.dom());
        }
        let mut ordered: Vec<QuestionView> = Vec::new();
        let mut i: usize = 0;
        while i < question_ids.len()
            invariant
                i <= question_ids@.len(),
                by_id@ == qmap,
                forall|j: int|
                    0 <= j < question_ids@.len() ==> qmap.contains_key(#[trigger] question_ids@[j]),
                ordered@.len() == i,
                forall|j: int|
                    0 <= j < i ==> shows_question(#[trigger] ordered@[j], qmap[question_ids@[j]]),
            decreases question_ids@.len() - i,
        {
            let id = question_ids[i];
            assert(qmap.contains_key(question_ids@[i as int]));
            match by_id.get(&id) {
                None => {
                    return Err(QuizError::QuestionNotFound(uuid_string(id)));
                },
                Some(q) => {
                    ordered.push(QuestionView::from(q));
                },
            }
            i = i + 1;
        }
        Ok(ordered)
    }

    /// Picks `question_number` of the quiz's questions in random order.
    /// Refused when the quiz has fewer questions.
    pub fn get_question_ids_for_attempt(&self, questions: &Vec<Question>, question_number: usize) -> (r:
        Result<Vec<u128>, QuizError>)
        ensures
            questions@.len() < question_number ==> r matches Err(QuizError::InvalidQuestionCount),
            questions@.len() >= question_number ==> (r matches Ok(v) && v@.len() == question_number
                && (forall|i: int|
                0 <= i < v@.len() ==> question_ids_of(questions@).contains(#[trigger] v@[i])) && (
            question_ids_of(questions@).no_duplicates() ==> v@.no_duplicates())),
    {
        if questions.len() < question_number {
            return Err(QuizError::InvalidQuestionCount);
        }
        let mut ids: Vec<u128> = Vec::new();
        let mut k: usize = 0;
        while k < questions.len()
            invariant
                k <= questions@.len(),
                ids@ == question_ids_of(questions@.take(k as int)),
            decreases questions@.len() - k,
        {
            proof {
                assert(questions@.take(k as int + 1).drop_last() == questions@.take(k as int));
            }
            ids.push(questions[k].id);
            k = k + 1;
        }
        proof {
            assert(questions@.take(questions@.len() as int) == questions@);
            lemma_ids_of(questions@);
        }
        let ghost all = ids@;
        shuffle_ids(&mut ids);
        let mut selected: Vec<u128> = Vec::new();
        let mut i: usize = 0;
        while i < question_number
            invariant
                i <= question_number <= ids@.len(),
                selected@ == ids@.take(i as int),
            decreases question_number - i,
        {
            selected.push(ids[i]);
            proof {
                assert(ids@.take(i as int + 1) == ids@.take(i as int).push(ids@[i as int]));
            }
            i = i + 1;
        }
        proof {
            lemma_selection(all, ids@, question_number as int);
        }
        Ok(selected)
    }

    /// Refuses a question that is not part of the attempt.
    pub fn ensure_question_belongs_to_attempt(&self, question_order: &[u128], question_id: u128) -> (r:
        Result<(), AttemptError>)
        ensures
            r is Ok <==> question_order@.contains(question_id),
            r matches Err(e) ==> e == AttemptError::QuestionNotInAttempt(question_id),
    {
        let mut i: usize = 0;
        while i < question_order.len()
            invariant
                i <= question_order@.len(),
                forall|j: int| 0 <= j < i ==> question_order@[j] != question_id,
            decreases question_order@.len() - i,
        {
            if question_order[i] == question_id {
                return Ok(());
            }
            i = i + 1;
        }
        Err(AttemptError::QuestionNotInAttempt(question_id))
    }

    /// Refuses an answer index that names no option of the question.
    pub fn ensure_valid_answer_index(&self, question: &Question, answer_index: i16) -> (r: Result<
        (),
        AttemptError,
    >)
        ensures
            r is Ok <==> 0 <= answer_index < (question.options@.len() as i16),
            r matches Err(e) ==> e == AttemptError::InvalidAnswerIndex,
    {
        let max = question.options.len() as i16;
        if answer_index < 0 || answer_index >= max {
            return Err(AttemptError::InvalidAnswerIndex);
        }
        Ok(())
    }
}

/// The ids of a list of questions.
pub open spec fn question_ids_of(qs: Seq<Question>) -> Seq<u128>
    decreases qs.len(),
{
    if qs.len() == 0 {
        Seq::empty()
    } else {
        question_ids_of(qs.drop_last()).push(qs.last().id)
    }
}

/// The ids of a list of questions are its questions' ids, position by
/// position.
pub proof fn lemma_ids_of(qs: Seq<Question>)
    ensures
        question_ids_of(qs).len() == qs.len(),
        forall|i: int| 0 <= i < qs.len() ==> #[trigger] question_ids_of(qs)[i] == qs[i].id,
    decreases qs.len(),
{
    if qs.len() > 0 {
        lemma_ids_of(qs.drop_last());
    }
}

/// The first `n` elements of a permutation of `all` are elements of `all`,
/// and repeat none where `all` repeats none.
proof fn lemma_selection(all: Seq<u128>, shuffled: Seq<u128>, n: int)
    requires
        shuffled.to_multiset() == all.to_multiset(),
        0 <= n <= shuffled.len(),
    ensures
        forall|i: int| 0 <= i < n ==> all.contains(#[trigger] shuffled.take(n)[i]),
        all.no_duplicates() ==> shuffled.take(n).no_duplicates(),
{
    broadcast use vstd::seq_lib::group_to_multiset_ensures;

    assert forall|i: int| 0 <= i < n implies all.contains(#[trigger] shuffled.take(n)[i]) by {
        assert(shuffled.contains(shuffled[i]));
        assert(shuffled.to_multiset().count(shuffled[i]) > 0);
    }
    if all.no_duplicates() {
        all.lemma_multiset_has_no_duplicates();
        shuffled.lemma_multiset_has_no_duplicates_conv();
        assert(shuffled.take(n).no_duplicates());
    }
}

} // verus!
