use vstd::prelude::*;

use crate::banks::entity::{clone_strings, Question, QuestionBank, QuestionBankQuestion};
use crate::courses::entity::CourseId;
use crate::support::{uuid_string, uuid_text, Timestamp};

verus! {

/// A question as shown to a student: without its correct option.
#[derive(Clone, Debug)]
pub struct QuestionView {
    pub id: u128,
    pub prompt: String,
    pub options: Vec<String>,
    pub images: Vec<String>,
}

/// A question of a bank as shown to its staff.
#[derive(Clone, Debug)]
pub struct QuestionBankQuestionView {
    pub id: u128,
    pub prompt: String,
    pub options: Vec<String>,
    pub answer_index: i16,
    pub images: Vec<String>,
}

/// A question bank as shown to its staff.
#[derive(Clone, Debug)]
pub struct QuestionBankView {
    pub id: String,
    pub course_id: CourseId,
    pub name: String,
    pub questions: Vec<QuestionBankQuestionView>,
    pub created_at: Timestamp,
}

/// Whether a student's view shows question `q`.
pub open spec fn shows_question(v: QuestionView, q: Question) -> bool {
    &&& v.id == q.id
    &&& v.prompt@ == q.prompt@
    &&& v.options@ == q.options@
    &&& v.images@ == q.images@
}

impl QuestionView {
    /// The student's view of a question.
    pub fn from(value: &Question) -> (r: QuestionView)
        ensures
            shows_question(r, *value),
    {
        QuestionView {
            id: value.id,
            prompt: value.prompt.clone(),
            options: clone_strings(&value.options),
            images: clone_strings(&value.images),
        }
    }
}

impl QuestionBankQuestionView {
    /// The staff's view of a question: the same fields.
    pub fn from(value: QuestionBankQuestion) -> (r: QuestionBankQuestionView)
        ensures
            r.id == value.id,
            r.prompt == value.prompt,
            r.options == value.options,
            r.answer_index == value.answer_index,
            r.images == value.images,
    {
        QuestionBankQuestionView {
            id: value.id,
            prompt: value.prompt,
            options: value.options,
            answer_index: value.answer_index,
            images: value.images,
        }
    }
}

/// Whether a staff view shows question `q`.
pub open spec fn shows_bank_question(v: QuestionBankQuestionView, q: QuestionBankQuestion) -> bool {
    &&& v.id == q.id
    &&& v.prompt == q.prompt
    &&& v.options == q.options
    &&& v.answer_index == q.answer_index
    &&& v.images == q.images
}

impl QuestionBankView {
    /// The staff's view of a bank: its id as text, and each question in
    /// order.
    pub fn from(value: QuestionBank) -> (r: QuestionBankView)
        ensures
            r.id@ == uuid_text(value.id),
            r.course_id == value.course_id,
            r.name == value.name,
            r.created_at == value.created_at,
            r.questions@.len() == value.questions@.len(),
            forall|i: int|
                0 <= i < r.questions@.len() ==> shows_bank_question(
                    #[trigger] r.questions@[i],
                    value.questions@[i],
                ),
    {
        let ghost qs = value.questions@;
        let mut rest = value.questions;
        let mut questions: Vec<QuestionBankQuestionView> = Vec::new();
        while rest.len() > 0
            invariant
                questions@.len() + rest@.len() == qs.len(),
                rest@ == qs.skip(questions@.len() as int),
                forall|i: int|
                    0 <= i < questions@.len() ==> shows_bank_question(
                        #[trigger] questions@[i],
                        qs[i],
                    ),
            decreases rest@.len(),
        {
            let q = rest.remove(0);
            let ghost k = questions@.len();
            proof {
                assert(q == qs[k as int]);
                assert(qs.skip(k as int).remove(0) == qs.skip(k as int + 1));
            }
            questions.push(QuestionBankQuestionView::from(q));
        }
        QuestionBankView {
            id: uuid_string(value.id),
            course_id: value.course_id,
            name: value.name,
            questions,
            created_at: value.created_at,
        }
    }
}

} // verus!
