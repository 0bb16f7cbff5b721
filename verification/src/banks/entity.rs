use vstd::prelude::*;

use crate::courses::entity::CourseId;
use crate::quizzes::entity::QuizId;
use crate::support::Timestamp;

verus! {

/// Identifier of a question bank.
pub type QuestionBankId = u128;

/// A multiple-choice question of a bank.
#[derive(Clone, Debug)]
pub struct QuestionBankQuestion {
    pub id: u128,
    pub prompt: String,
    pub options: Vec<String>,
    pub answer_index: i16,
    pub images: Vec<String>,
}

/// The questions that quizzes and attempts are built from.
pub type Question = QuestionBankQuestion;

/// A bank of questions of a course.
#[derive(Clone, Debug)]
pub struct QuestionBank {
    pub id: QuestionBankId,
    pub course_id: CourseId,
    pub name: String,
    pub questions: Vec<QuestionBankQuestion>,
    pub created_at: Timestamp,
    pub deleted_at: Option<Timestamp>,
}

/// A quiz that draws questions from a bank.
#[derive(Clone, Debug)]
pub struct LinkedQuiz {
    pub id: QuizId,
    pub question_count: i16,
    pub starts_at: Timestamp,
    pub closed_at: Option<Timestamp>,
}

impl QuestionBank {
    /// The key under which question banks are stored.
    pub fn key_name() -> (r: &'static str)
        ensures
            r@ == "question_bank"@,
    {
        proof {
            reveal_strlit("question_bank");
        }
        "question_bank"
    }
}

/// Copies a list of strings.
pub fn clone_strings(v: &Vec<String>) -> (r: Vec<String>)
    ensures
        r@ == v@,
{
    let mut r: Vec<String> = Vec::new();
    let mut i: usize = 0;
    while i < v.len()
        invariant
            i <= v@.len(),
            r@ == v@.take(i as int),
        decreases v@.len() - i,
    {
        r.push(v[i].clone());
        proof {
            assert(v@.take(i as int + 1) == v@.take(i as int).push(v@[i as int]));
        }
        i = i + 1;
    }
    proof {
        assert(v@.take(v@.len() as int) == v@);
    }
    r
}

} // verus!
