use vstd::prelude::*;
use vstd::string::*;

use crate::banks::entity::{clone_strings, QuestionBankQuestion};
use crate::courses::entity::CourseId;
use crate::support::new_uuid;

verus! {

/// A question as requested, for a new or updated bank.
#[derive(Clone, Debug)]
pub struct QuestionInput {
    pub prompt: String,
    pub options: Vec<String>,
    pub answer_index: usize,
    pub images: Vec<String>,
}

/// The request to create a question bank.
#[derive(Clone, Debug)]
pub struct CreateQuestionBankDto {
    pub course_id: CourseId,
    pub name: String,
    pub questions: Vec<QuestionInput>,
}

/// The request to change a question bank.
#[derive(Clone, Debug)]
pub struct UpdateQuestionBankDto {
    pub name: Option<String>,
    pub questions: Option<Vec<QuestionInput>>,
}

/// A rule broken by a requested question.
#[derive(Clone, Copy, Debug, PartialEq, Eq, Structural)]
pub enum QuestionInputFailure {
    /// The prompt does not have 1 to 1000 characters.
    Prompt,
    /// There are not 2 to 5 options.
    Options,
    /// There are more than 5 images.
    Images,
    /// The answer index names no option.
    InvalidAnswerIndex,
}

/// A rule broken by a request to create or change a bank.
#[derive(Clone, Copy, Debug, PartialEq, Eq, Structural)]
pub enum QuestionBankInputFailure {
    /// The name does not have 1 to 120 characters.
    Name,
    /// There are not 1 to 500 questions.
    Questions,
    /// The question at this position breaks a rule.
    Question(usize, QuestionInputFailure),
    /// A change names neither a name nor questions.
    EmptyUpdate,
}

/// The rules a requested question breaks, field by field, then the rule
/// that its answer names one of its options.
pub open spec fn question_failures(q: QuestionInput) -> Seq<QuestionInputFailure> {
    let f0: Seq<QuestionInputFailure> = if 1 <= q.prompt@.len() <= 1000 {
        Seq::empty()
    } else {
        seq![QuestionInputFailure::Prompt]
    };
    let f1 = if 2 <= q.options@.len() <= 5 {
        f0
    } else {
        f0.push(QuestionInputFailure::Options)
    };
    let f2 = if q.images@.len() <= 5 {
        f1
    } else {
        f1.push(QuestionInputFailure::Images)
    };
    if q.answer_index < q.options@.len() {
        f2
    } else {
        f2.push(QuestionInputFailure::InvalidAnswerIndex)
    }
}

/// The rules broken by a list of requested questions, each tagged with its
/// position.
pub open spec fn questions_failures(qs: Seq<QuestionInput>) -> Seq<QuestionBankInputFailure>
    decreases qs.len(),
{
    if qs.len() == 0 {
        Seq::empty()
    } else {
        let k = (qs.len() - 1) as usize;
        questions_failures(qs.drop_last()) + question_failures(qs.last()).map_values(
            |f: QuestionInputFailure| QuestionBankInputFailure::Question(k, f),
        )
    }
}

/// The rules a bank name breaks.
pub open spec fn name_failures(name: Seq<char>) -> Seq<QuestionBankInputFailure> {
    if 1 <= name.len() <= 120 {
        Seq::empty()
    } else {
        seq![QuestionBankInputFailure::Name]
    }
}

/// The rules a list of questions breaks, as a whole and one by one.
pub open spec fn question_list_failures(qs: Seq<QuestionInput>) -> Seq<QuestionBankInputFailure> {
    let f: Seq<QuestionBankInputFailure> = if 1 <= qs.len() <= 500 {
        Seq::empty()
    } else {
        seq![QuestionBankInputFailure::Questions]
    };
    f + questions_failures(qs)
}

/// Every rule a request to create a bank breaks.
pub open spec fn create_bank_failures(dto: CreateQuestionBankDto) -> Seq<QuestionBankInputFailure> {
    name_failures(dto.name@) + question_list_failures(dto.questions@)
}

/// Every rule a request to change a bank breaks.
pub open spec fn update_bank_failures(dto: UpdateQuestionBankDto) -> Seq<QuestionBankInputFailure> {
    let a = match dto.name {
        Some(n) => name_failures(n@),
        None => Seq::empty(),
    };
    let b = match dto.questions {
        Some(qs) => question_list_failures(qs@),
        None => Seq::empty(),
    };
    if dto.name is Some || dto.questions is Some {
        a + b
    } else {
        (a + b).push(QuestionBankInputFailure::EmptyUpdate)
    }
}

/// The rules broken by a list of questions are each tagged with the
/// position of a question.
proof fn lemma_questions_failures_tagged(qs: Seq<QuestionInput>)
    ensures
        forall|i: int|
            0 <= i < questions_failures(qs).len() ==> #[trigger] questions_failures(qs)[i] is Question,
    decreases qs.len(),
{
    if qs.len() > 0 {
        lemma_questions_failures_tagged(qs.drop_last());
    }
}

/// No rule on names or questions reports an empty change.
proof fn lemma_no_empty_update_among(name: Seq<char>, qs: Seq<QuestionInput>)
    ensures
        !name_failures(name).contains(QuestionBankInputFailure::EmptyUpdate),
        !question_list_failures(qs).contains(QuestionBankInputFailure::EmptyUpdate),
{
    lemma_questions_failures_tagged(qs);
    let l = question_list_failures(qs);
    if l.contains(QuestionBankInputFailure::EmptyUpdate) {
        let i = choose|i: int| 0 <= i < l.len() && l[i] == QuestionBankInputFailure::EmptyUpdate;
        let f: Seq<QuestionBankInputFailure> = if 1 <= qs.len() <= 500 {
            Seq::empty()
        } else {
            seq![QuestionBankInputFailure::Questions]
        };
        assert(l == f + questions_failures(qs));
        if i >= f.len() {
            assert(l[i] == questions_failures(qs)[i - f.len()]);
        }
    }
}

/// A change is refused as empty exactly when it names neither a name nor
/// questions; a change that names only questions breaks just the rules on
/// those questions, one that names only a name just the rules on names, and
/// an empty change breaks no other rule.
pub proof fn lemma_empty_update_exactly(dto: UpdateQuestionBankDto)
    ensures
        update_bank_failures(dto).contains(QuestionBankInputFailure::EmptyUpdate) <==> (dto.name is None
            && dto.questions is None),
        dto.name is None && dto.questions is None ==> update_bank_failures(dto) == seq![
            QuestionBankInputFailure::EmptyUpdate,
        ],
        dto.name is None && dto.questions is Some ==> update_bank_failures(dto)
            == question_list_failures(dto.questions->0@),
        dto.name is Some && dto.questions is None ==> update_bank_failures(dto) == name_failures(
            dto.name->0@,
        ),
        dto.name is Some && dto.questions is Some ==> update_bank_failures(dto) == name_failures(
            dto.name->0@,
        ) + question_list_failures(dto.questions->0@),
{
    let name: Seq<char> = match dto.name {
        Some(n) => n@,
        None => Seq::empty(),
    };
    let qs: Seq<QuestionInput> = match dto.questions {
        Some(q) => q@,
        None => Seq::empty(),
    };
    lemma_no_empty_update_among(name, qs);
    let a = match dto.name {
        Some(n) => name_failures(n@),
        None => Seq::<QuestionBankInputFailure>::empty(),
    };
    let b = match dto.questions {
        Some(q) => question_list_failures(q@),
        None => Seq::<QuestionBankInputFailure>::empty(),
    };
    let u = update_bank_failures(dto);
    if dto.name is Some || dto.questions is Some {
        assert(u == a + b);
        if u.contains(QuestionBankInputFailure::EmptyUpdate) {
            let i = choose|i: int| 0 <= i < u.len() && u[i] == QuestionBankInputFailure::EmptyUpdate;
            if i < a.len() {
                assert(a[i] == u[i]);
                assert(a.contains(QuestionBankInputFailure::EmptyUpdate));
            } else {
                assert(b[i - a.len()] == u[i]);
                assert(b.contains(QuestionBankInputFailure::EmptyUpdate));
            }
        }
        assert(a + Seq::<QuestionBankInputFailure>::empty() =~= a);
        assert(Seq::<QuestionBankInputFailure>::empty() + b =~= b);
    } else {
        assert(u =~= seq![QuestionBankInputFailure::EmptyUpdate]);
        assert(u[0] == QuestionBankInputFailure::EmptyUpdate);
    }
}

impl QuestionInput {
    /// Every rule the requested question breaks.
    pub fn validate(&self) -> (r: Result<(), Vec<QuestionInputFailure>>)
        ensures
            r is Ok <==> question_failures(*self).len() == 0,
            r matches Err(v) ==> v@ == question_failures(*self),
    {
        let mut v: Vec<QuestionInputFailure> = Vec::new();
        let n = self.prompt.as_str().unicode_len();
        if !(1 <= n && n <= 1000) {
            v.push(QuestionInputFailure::Prompt);
        }
        if !(2 <= self.options.len() && self.options.len() <= 5) {
            v.push(QuestionInputFailure::Options);
        }
        if !(self.images.len() <= 5) {
            v.push(QuestionInputFailure::Images);
        }
        match validate_question(self) {
            Err(f) => {
                v.push(f);
            },
            Ok(()) => {},
        }
        assert(v@ =~= question_failures(*self));
        if v.len() == 0 {
            Ok(())
        } else {
            Err(v)
        }
    }
}

/// The answer of a requested question must name one of its options.
pub fn validate_question(question: &QuestionInput) -> (r: Result<(), QuestionInputFailure>)
    ensures
        r is Ok <==> question.answer_index < question.options@.len(),
        r matches Err(f) ==> f == QuestionInputFailure::InvalidAnswerIndex,
{
    if question.answer_index < question.options.len() {
        return Ok(());
    }
    Err(QuestionInputFailure::InvalidAnswerIndex)
}

/// A change must name a name or questions.
pub fn validate_update_has_fields(dto: &UpdateQuestionBankDto) -> (r: Result<(), QuestionBankInputFailure>)
    ensures
        r is Ok <==> dto.name is Some || dto.questions is Some,
        r matches Err(f) ==> f == QuestionBankInputFailure::EmptyUpdate,
{
    if dto.name.is_some() || dto.questions.is_some() {
        return Ok(());
    }
    Err(QuestionBankInputFailure::EmptyUpdate)
}

/// Appends the rules a bank name breaks.
fn push_name_failures(v: &mut Vec<QuestionBankInputFailure>, name: &String)
    ensures
        final(v)@ == old(v)@ + name_failures(name@),
{
    let n = name.as_str().unicode_len();
    if !(1 <= n && n <= 120) {
        v.push(QuestionBankInputFailure::Name);
    }
    assert(final(v)@ =~= old(v)@ + name_failures(name@));
}

/// Appends the rules a list of requested questions breaks.
fn push_question_list_failures(v: &mut Vec<QuestionBankInputFailure>, qs: &Vec<QuestionInput>)
    ensures
        final(v)@ == old(v)@ + question_list_failures(qs@),
{
    let ghost start = v@;
    if !(1 <= qs.len() && qs.len() <= 500) {
        v.push(QuestionBankInputFailure::Questions);
    }
    let ghost head = v@;
    let mut i: usize = 0;
    while i < qs.len()
        invariant
            i <= qs@.len(),
            v@ == head + questions_failures(qs@.take(i as int)),
        decreases qs@.len() - i,
    {
        proof {
            assert(qs@.take(i as int + 1).drop_last() == qs@.take(i as int));
            assert(qs@.take(i as int + 1).last() == qs@[i as int]);
        }
        let ghost before = v@;
        match qs[i].validate() {
            Ok(()) => {
                assert(question_failures(qs@[i as int]).map_values(
                    |f: QuestionInputFailure| QuestionBankInputFailure::Question(i, f),
                ) =~= Seq::empty());
            },
            Err(fs) => {
                let mut j: usize = 0;
                while j < fs.len()
                    invariant
                        j <= fs@.len(),
                        v@ == before + fs@.take(j as int).map_values(
                            |f: QuestionInputFailure| QuestionBankInputFailure::Question(i, f),
                        ),
                    decreases fs@.len() - j,
                {
                    v.push(QuestionBankInputFailure::Question(i, fs[j]));
                    proof {
                        assert(fs@.take(j as int + 1).map_values(
                            |f: QuestionInputFailure| QuestionBankInputFailure::Question(i, f),
                        ) =~= fs@.take(j as int).map_values(
                            |f: QuestionInputFailure| QuestionBankInputFailure::Question(i, f),
                        ).push(QuestionBankInputFailure::Question(i, fs@[j as int])));
                    }
                    j = j + 1;
                }
                proof {
                    assert(fs@.take(fs@.len() as int) == fs@);
                }
            },
        }
        proof {
            assert(v@ =~= head + questions_failures(qs@.take(i as int + 1)));
        }
        i = i + 1;
    }
    proof {
        assert(qs@.take(qs@.len() as int) == qs@);
        assert(v@ =~= start + question_list_failures(qs@));
    }
}

impl CreateQuestionBankDto {
    /// Every rule the request breaks.
    pub fn validate(&self) -> (r: Result<(), Vec<QuestionBankInputFailure>>)
        ensures
            r is Ok <==> create_bank_failures(*self).len() == 0,
            r matches Err(v) ==> v@ == create_bank_failures(*self),
    {
        let mut v: Vec<QuestionBankInputFailure> = Vec::new();
        push_name_failures(&mut v, &self.name);
        push_question_list_failures(&mut v, &self.questions);
        assert(v@ =~= create_bank_failures(*self));
        if v.len() == 0 {
            Ok(())
        } else {
            Err(v)
        }
    }
}

impl UpdateQuestionBankDto {
    /// Every rule the request breaks.
    pub fn validate(&self) -> (r: Result<(), Vec<QuestionBankInputFailure>>)
        ensures
            r is Ok <==> update_bank_failures(*self).len() == 0,
            r matches Err(v) ==> v@ == update_bank_failures(*self),
    {
        let mut v: Vec<QuestionBankInputFailure> = Vec::new();
        match &self.name {
            Some(n) => push_name_failures(&mut v, n),
            None => {},
        }
        match &self.questions {
            Some(qs) => push_question_list_failures(&mut v, qs),
            None => {},
        }
        match validate_update_has_fields(self) {
            Err(f) => {
                v.push(f);
            },
            Ok(()) => {},
        }
        assert(v@ =~= update_bank_failures(*self));
        if v.len() == 0 {
            Ok(())
        } else {
            Err(v)
        }
    }
}

/// Whether a stored question was made from a requested one.
pub open spec fn made_from(q: QuestionBankQuestion, input: QuestionInput) -> bool {
    &&& q.prompt == input.prompt
    &&& q.options@ == input.options@
    &&& q.answer_index == input.answer_index as i16
    &&& q.images@ == input.images@
}

impl QuestionBankQuestion {
    /// The stored question for a requested one, with the given id.
    pub fn from_input(value: &QuestionInput, id: u128) -> (r: QuestionBankQuestion)
        ensures
            r.id == id,
            made_from(r, *value),
    {
        QuestionBankQuestion {
            id,
            prompt: value.prompt.clone(),
            options: clone_strings(&value.options),
            answer_index: value.answer_index as i16,
            images: clone_strings(&value.images),
        }
    }

    /// The stored question for a requested one, with a fresh random id.
    pub fn from(value: &QuestionInput) -> (r: QuestionBankQuestion)
        ensures
            made_from(r, *value),
    {
        Self::from_input(value, new_uuid())
    }
}

/// The stored questions for a list of requested ones, each with a fresh
/// random id.
pub fn questions_from_inputs(inputs: &Vec<QuestionInput>) -> (r: Vec<QuestionBankQuestion>)
    ensures
        r@.len() == inputs@.len(),
        forall|i: int| 0 <= i < r@.len() ==> made_from(#[trigger] r@[i], inputs@[i]),
{
    let mut r: Vec<QuestionBankQuestion> = Vec::new();
    let mut i: usize = 0;
    while i < inputs.len()
        invariant
            i <= inputs@.len(),
            r@.len() == i,
            forall|j: int| 0 <= j < i ==> made_from(#[trigger] r@[j], inputs@[j]),
        decreases inputs@.len() - i,
    {
        r.push(QuestionBankQuestion::from(&inputs[i]));
        i = i + 1;
    }
    r
}

} // verus!
