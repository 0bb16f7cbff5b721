use vstd::prelude::*;

use crate::banks::dtos::{made_from, questions_from_inputs, CreateQuestionBankDto, UpdateQuestionBankDto};
use crate::banks::entity::{QuestionBank, QuestionBankId};
use crate::banks::errors::QuestionBankError;
use crate::courses::entity::CourseId;
use crate::quizzes::entity::Quiz;
use crate::support::{new_uuid, now_micros, uuid_string, uuid_text, valid_instant, Timestamp};
use crate::users::User;

verus! {

/// Who may see and change question banks: the members of their course.
pub struct QuestionBankPolicy;

/// Lists, creates, changes and deletes question banks.
pub struct QuestionBankService {
    pub policy: QuestionBankPolicy,
}

/// Whether `e` is the not-found error for id `id`.
pub open spec fn bank_not_found(e: QuestionBankError, id: u128) -> bool {
    e matches QuestionBankError::NotFound(s) && s@ == uuid_text(id)
}

/// The outcome of checking access to a course: it must exist and the user
/// must belong to it.
pub open spec fn course_access(course_id: CourseId, course_exists: bool, is_member: bool, r: Result<(), QuestionBankError>) -> bool {
    if !course_exists {
        r matches Err(e) && bank_not_found(e, course_id)
    } else if !is_member {
        r matches Err(QuestionBankError::Forbidden)
    } else {
        r is Ok
    }
}

/// Whether a quiz is running at instant `now`: started and not closed.
pub open spec fn is_running(quiz: Quiz, now: Timestamp) -> bool {
    quiz.closed_at is None && quiz.starts_at <= now
}

/// Whether no quiz of the list runs at instant `now`.
pub open spec fn none_running(quizzes: Seq<Quiz>, now: Timestamp) -> bool {
    forall|i: int| 0 <= i < quizzes.len() ==> !is_running(#[trigger] quizzes[i], now)
}

/// What to do with the snapshot of a quiz linked to a changed bank.
#[derive(Clone, Copy, Debug, PartialEq, Eq, Structural)]
pub enum SnapshotSync {
    /// The quiz is closed or has started: keep its snapshot.
    Skip,
    /// Replace the quiz's snapshot with the banks' questions.
    Update,
}

impl QuestionBankPolicy {
    /// Access to a course: `course_exists` tells whether it exists,
    /// `is_member` whether the user belongs to it.
    pub fn require_accessible_course(
        &self,
        current_user: &User,
        course_id: CourseId,
        course_exists: bool,
        is_member: bool,
    ) -> (r: Result<(), QuestionBankError>)
        ensures
            course_access(course_id, course_exists, is_member, r),
    {
        if !course_exists {
            return Err(QuestionBankError::NotFound(uuid_string(course_id)));
        }
        if !is_member {
            return Err(QuestionBankError::Forbidden);
        }
        Ok(())
    }

    /// The bank stored under `bank_id`, if the user may access its course.
    pub fn require_accessible_bank(
        &self,
        current_user: &User,
        bank_id: QuestionBankId,
        found: Option<QuestionBank>,
        course_exists: bool,
        is_member: bool,
    ) -> (r: Result<QuestionBank, QuestionBankError>)
        ensures
            match found {
                None => r matches Err(e) && bank_not_found(e, bank_id),
                Some(b) => if !course_exists {
                    r matches Err(e) && bank_not_found(e, b.course_id)
                } else if !is_member {
                    r matches Err(QuestionBankError::Forbidden)
                } else {
                    r matches Ok(x) && x == b
                },
            },
    {
        let bank = match found {
            None => {
                return Err(QuestionBankError::NotFound(uuid_string(bank_id)));
            },
            Some(b) => b,
        };
        match self.require_accessible_course(current_user, bank.course_id, course_exists, is_member) {
            Err(e) => {
                return Err(e);
            },
            Ok(()) => {},
        }
        Ok(bank)
    }
}

impl QuestionBankService {
    /// The new bank requested, at instant `now`, with id `bank_id`, if the
    /// user may access the course. Its questions get fresh random ids.
    pub fn create_at(
        &self,
        current_user: &User,
        input: CreateQuestionBankDto,
        course_exists: bool,
        is_member: bool,
        bank_id: QuestionBankId,
        now: Timestamp,
    ) -> (r: Result<QuestionBank, QuestionBankError>)
        ensures
            !course_exists || !is_member ==> course_access(
                input.course_id,
                course_exists,
                is_member,
                match r {
                    Ok(_) => Ok(()),
                    Err(e) => Err(e),
                },
            ),
            course_exists && is_member ==> (r matches Ok(b) && b.id == bank_id && b.course_id
                == input.course_id && b.name == input.name && b.created_at == now && b.deleted_at
                is None && b.questions@.len() == input.questions@.len() && forall|i: int|
                0 <= i < b.questions@.len() ==> made_from(
                    #[trigger] b.questions@[i],
                    input.questions@[i],
                )),
    {
        match self.policy.require_accessible_course(
            current_user,
            input.course_id,
            course_exists,
            is_member,
        ) {
            Err(e) => {
                return Err(e);
            },
            Ok(()) => {},
        }
        let questions = questions_from_inputs(&input.questions);
        Ok(
            QuestionBank {
                id: bank_id,
                course_id: input.course_id,
                name: input.name,
                questions,
                created_at: now,
                deleted_at: None,
            },
        )
    }

    /// `create_at` now, with a fresh random id.
    pub fn create(
        &self,
        current_user: &User,
        input: CreateQuestionBankDto,
        course_exists: bool,
        is_member: bool,
    ) -> (r: Result<QuestionBank, QuestionBankError>)
        ensures
            course_exists && is_member ==> (r matches Ok(b) && b.course_id == input.course_id
                && b.name == input.name && b.deleted_at is None && b.questions@.len()
                == input.questions@.len()),
            !(course_exists && is_member) ==> r is Err,
    {
        let id = new_uuid();
        let now = now_micros();
        self.create_at(current_user, input, course_exists, is_member, id, now)
    }

    /// The bank with the requested changes: a new name, and new questions
    /// (with fresh random ids), where given.
    pub fn update(&self, bank: QuestionBank, input: UpdateQuestionBankDto) -> (r: QuestionBank)
        ensures
            r.id == bank.id,
            r.course_id == bank.course_id,
            r.created_at == bank.created_at,
            r.deleted_at == bank.deleted_at,
            r.name == match input.name {
                Some(n) => n,
                None => bank.name,
            },
            input.questions is None ==> r.questions == bank.questions,
            input.questions matches Some(qs) ==> r.questions@.len() == qs@.len() && forall|i: int|
                0 <= i < qs@.len() ==> made_from(#[trigger] r.questions@[i], qs@[i]),
    {
        let mut bank = bank;
        match input.name {
            Some(name) => {
                bank.name = name;
            },
            None => {},
        }
        match &input.questions {
            Some(qs) => {
                bank.questions = questions_from_inputs(qs);
            },
            None => {},
        }
        bank
    }

    /// Refuses to change a bank while a quiz using it runs at instant
    /// `now`.
    pub fn ensure_not_linked_to_running_quiz_at(&self, quizzes: &[Quiz], now: Timestamp) -> (r: Result<
        (),
        QuestionBankError,
    >)
        ensures
            r is Ok <==> none_running(quizzes@, now),
            r matches Err(e) ==> e is LockedByRunningQuiz,
    {
        let mut i: usize = 0;
        while i < quizzes.len()
            invariant
                i <= quizzes@.len(),
                forall|j: int| 0 <= j < i ==> !is_running(#[trigger] quizzes@[j], now),
            decreases quizzes@.len() - i,
        {
            if quizzes[i].closed_at.is_none() && quizzes[i].starts_at <= now {
                return Err(QuestionBankError::LockedByRunningQuiz);
            }
            i = i + 1;
        }
        Ok(())
    }

    /// Refuses to change a bank while a quiz using it runs now.
    pub fn ensure_not_linked_to_running_quiz(&self, quizzes: &[Quiz]) -> (r: Result<(), QuestionBankError>)
        ensures
            exists|now: Timestamp|
                valid_instant(now as int) && (r is Ok <==> #[trigger] none_running(quizzes@, now)),
            r matches Err(e) ==> e is LockedByRunningQuiz,
    {
        let now = now_micros();
        let r = self.ensure_not_linked_to_running_quiz_at(quizzes, now);
        assert(r is Ok <==> none_running(quizzes@, now));
        r
    }

    /// The positions, in order, of the linked quizzes whose snapshots follow
    /// a change of their banks at instant `now`: those neither closed nor
    /// started.
    pub fn not_started_at(&self, quizzes: &[Quiz], now: Timestamp) -> (r: Vec<usize>)
        ensures
            forall|k: int| 0 <= k < r@.len() ==> #[trigger] r@[k] < quizzes@.len(),
            forall|k: int, l: int| 0 <= k < l < r@.len() ==> r@[k] < r@[l],
            forall|i: int|
                0 <= i < quizzes@.len() ==> (r@.contains(i as usize) <==> !(#[trigger] quizzes@[i].closed_at
                    is Some || quizzes@[i].starts_at <= now)),
    {
        let mut r: Vec<usize> = Vec::new();
        let mut i: usize = 0;
        while i < quizzes.len()
            invariant
                i <= quizzes@.len(),
                forall|k: int| 0 <= k < r@.len() ==> #[trigger] r@[k] < i,
                forall|k: int, l: int| 0 <= k < l < r@.len() ==> r@[k] < r@[l],
                forall|j: int|
                    0 <= j < i ==> (r@.contains(j as usize) <==> !(#[trigger] quizzes@[j].closed_at
                        is Some || quizzes@[j].starts_at <= now)),
            decreases quizzes@.len() - i,
        {
            let ghost before = r@;
            if !(quizzes[i].closed_at.is_some() || quizzes[i].starts_at <= now) {
                r.push(i);
                proof {
                    assert(r@ == before.push(i));
                    assert forall|j: int| 0 <= j < i implies (#[trigger] r@.contains(j as usize)
                        <==> before.contains(j as usize)) by {
                        if r@.contains(j as usize) {
                            let k = choose|k: int| 0 <= k < r@.len() && r@[k] == j as usize;
                            if k < before.len() {
                                assert(before[k] == j as usize);
                            }
                        }
                        if before.contains(j as usize) {
                            let k = choose|k: int| 0 <= k < before.len() && before[k] == j as usize;
                            assert(r@[k] == j as usize);
                        }
                    }
                    assert(r@[before.len() as int] == i);
                }
            } else {
                proof {
                    assert(!before.contains(i)) by {
                        if before.contains(i) {
                            let k = choose|k: int| 0 <= k < before.len() && before[k] == i;
                            assert(before[k] < i);
                        }
                    }
                }
            }
            i = i + 1;
        }
        r
    }

    /// What to do with the snapshot of a linked quiz at instant `now`,
    /// given how many questions its banks now hold: only quizzes not yet
    /// started nor closed are updated, and only if the banks still hold as
    /// many questions as the quiz asks.
    pub fn sync_not_started_snapshot_at(&self, quiz: &Quiz, now: Timestamp, question_total: usize) -> (r:
        Result<SnapshotSync, QuestionBankError>)
        ensures
            quiz.closed_at is Some || quiz.starts_at <= now ==> r == Ok::<
                SnapshotSync,
                QuestionBankError,
            >(SnapshotSync::Skip),
            !(quiz.closed_at is Some || quiz.starts_at <= now) ==> if (quiz.question_count as usize)
                > question_total {
                r matches Err(QuestionBankError::InvalidQuestionCountAfterBankUpdate)
            } else {
                r == Ok::<SnapshotSync, QuestionBankError>(SnapshotSync::Update)
            },
    {
        if quiz.closed_at.is_some() || quiz.starts_at <= now {
            return Ok(SnapshotSync::Skip);
        }
        if quiz.question_count as usize > question_total {
            return Err(QuestionBankError::InvalidQuestionCountAfterBankUpdate);
        }
        Ok(SnapshotSync::Update)
    }

    /// The outcome of replacing a snapshot: refused when none was found.
    pub fn snapshot_update_outcome(&self, updated: bool) -> (r: Result<(), QuestionBankError>)
        ensures
            updated ==> r is Ok,
            !updated ==> r matches Err(QuestionBankError::SnapshotNotFound),
    {
        if !updated {
            return Err(QuestionBankError::SnapshotNotFound);
        }
        Ok(())
    }

    /// The outcome of deleting a bank: refused as not found when no bank was
    /// deleted.
    pub fn soft_delete_outcome(&self, bank_id: QuestionBankId, deleted: bool) -> (r: Result<
        (),
        QuestionBankError,
    >)
        ensures
            deleted ==> r is Ok,
            !deleted ==> (r matches Err(e) && bank_not_found(e, bank_id)),
    {
        if !deleted {
            return Err(QuestionBankError::NotFound(uuid_string(bank_id)));
        }
        Ok(())
    }

    /// Whether every requested bank belongs to the course, given how many
    /// of them the database found in it: never for an empty request.
    pub fn are_banks_in_course(&self, bank_ids: &[QuestionBankId], count_in_course: i64) -> (r: bool)
        ensures
            r == (bank_ids@.len() > 0 && count_in_course as usize == bank_ids@.len()),
    {
        if bank_ids.len() == 0 {
            return false;
        }
        count_in_course as usize == bank_ids.len()
    }
}

} // verus!
