use vstd::prelude::*;

use crate::banks::entity::Question;
use crate::courses::entity::{Course, CourseId};
use crate::quizzes::dtos::{table_from_dto, CreateQuizDto};
use crate::quizzes::entity::{CertaintyTable, Quiz, QuizId};
use crate::quizzes::errors::QuizError;
use crate::quizzes::views::{quiz_view_of, JoinQuizPreviewView, QuizView};
use crate::support::{
    is_ascii_alnum, new_uuid, now_micros, parse_rfc3339_micros, push_char, random_alphanumeric,
    spec_rfc3339_micros, uuid_string, uuid_text, valid_instant, Timestamp,
};
use crate::users::{staff_role, is_staff_role, User, UserId, UserRole};

verus! {

/// The number of characters of a join code.
pub const JOIN_CODE_LENGTH: usize = 8;

/// How many join codes are drawn before giving up on finding a free one.
pub const JOIN_CODE_MAX_ATTEMPTS: usize = 10;

/// Who may create and manage quizzes.
pub struct QuizPolicy;

/// Draws join codes.
pub struct QuizCodeGenerator;

/// Creates, lists, shows and deletes quizzes, and manages their
/// collaborators.
pub struct QuizService {
    pub policy: QuizPolicy,
    pub codegen: QuizCodeGenerator,
}

/// Whether `e` is the not-found error for the text `key`.
pub open spec fn quiz_not_found_text(e: QuizError, key: Seq<char>) -> bool {
    e matches QuizError::NotFound(s) && s@ == key
}

/// Whether a character is an uppercase ASCII letter or a digit.
pub open spec fn is_upper_alnum(c: char) -> bool {
    ('A' <= c <= 'Z') || ('0' <= c <= '9')
}

/// Whether a character is an ASCII letter or a digit.
pub open spec fn is_alnum_char(c: char) -> bool {
    ('A' <= c <= 'Z') || ('a' <= c <= 'z') || ('0' <= c <= '9')
}

/// What to do after drawing a join code.
#[derive(Clone, Debug)]
pub enum JoinCodeDecision {
    /// The code is free: use it.
    Accept(String),
    /// The code is taken: draw another.
    Retry,
    /// Every draw was taken: give up.
    Exhausted(QuizError),
}

impl QuizPolicy {
    /// Admins may create quizzes in any course, others in the courses they
    /// belong to. `is_member` tells whether the user belongs to the course.
    pub fn check_can_create_quiz(&self, current_user: &User, is_member: bool) -> (r: Result<
        bool,
        QuizError,
    >)
        ensures
            r is Ok <==> current_user.role == UserRole::Admin || is_member,
            r matches Ok(b) ==> b,
            r matches Err(e) ==> e is Forbidden,
    {
        if current_user.role == UserRole::Admin {
            return Ok(true);
        }
        if !is_member {
            return Err(QuizError::Forbidden);
        }
        Ok(true)
    }

    /// The quiz stored under `quiz_id`, if the user may manage it: admins
    /// manage every quiz, others those of the courses they belong to.
    /// `is_member` tells whether the user belongs to the quiz's course.
    pub fn require_managed_quiz(
        &self,
        current_user: &User,
        quiz_id: QuizId,
        found: Option<Quiz>,
        is_member: bool,
    ) -> (r: Result<Quiz, QuizError>)
        ensures
            match found {
                None => r matches Err(e) && quiz_not_found_text(e, uuid_text(quiz_id)),
                Some(q) => if current_user.role == UserRole::Admin || is_member {
                    r matches Ok(x) && x == q
                } else {
                    r matches Err(QuizError::Forbidden)
                },
            },
    {
        let quiz = match found {
            None => {
                return Err(QuizError::NotFound(uuid_string(quiz_id)));
            },
            Some(q) => q,
        };
        if current_user.role == UserRole::Admin {
            return Ok(quiz);
        }
        if !is_member {
            return Err(QuizError::Forbidden);
        }
        Ok(quiz)
    }
}

impl QuizCodeGenerator {
    /// A random join code: eight uppercase letters or digits.
    pub fn generate_join_code_candidate(&self) -> (r: String)
        ensures
            r@.len() == JOIN_CODE_LENGTH,
            forall|i: int| 0 <= i < r@.len() ==> is_upper_alnum(#[trigger] r@[i]),
    {
        let mut code = String::new();
        let mut i: usize = 0;
        while i < JOIN_CODE_LENGTH
            invariant
                i <= JOIN_CODE_LENGTH,
                code@.len() == i,
                forall|j: int| 0 <= j < code@.len() ==> is_upper_alnum(#[trigger] code@[j]),
            decreases JOIN_CODE_LENGTH - i,
        {
            let b = random_alphanumeric();
            let upper: u8 = if 0x61 <= b && b <= 0x7A {
                b - 32
            } else {
                b
            };
            push_char(&mut code, upper as char);
            i = i + 1;
        }
        code
    }

    /// What to do after the `attempts_made`-th draw (counted from one),
    /// which gave `candidate`, free unless `taken`.
    pub fn generate_unique_join_code(&self, attempts_made: usize, candidate: String, taken: bool) -> (r:
        JoinCodeDecision)
        ensures
            !taken ==> (r matches JoinCodeDecision::Accept(c) && c == candidate),
            taken && attempts_made >= JOIN_CODE_MAX_ATTEMPTS ==> r matches JoinCodeDecision::Exhausted(
                QuizError::InvalidCode,
            ),
            taken && attempts_made < JOIN_CODE_MAX_ATTEMPTS ==> r is Retry,
    {
        if !taken {
            return JoinCodeDecision::Accept(candidate);
        }
        if attempts_made >= JOIN_CODE_MAX_ATTEMPTS {
            return JoinCodeDecision::Exhausted(QuizError::InvalidCode);
        }
        JoinCodeDecision::Retry
    }
}

/// The outcome of the checks of a request to create a quiz: `Forbidden`
/// unless the user is an admin or a member of the course, then
/// `InvalidBanksForCourse`, `InvalidQuestionCount` when the banks hold
/// fewer questions than asked, `InvalidStartTime` when the start is not
/// RFC 3339; else the start instant.
pub open spec fn create_check(
    user: User,
    input: CreateQuizDto,
    is_member: bool,
    banks_in_course: bool,
    questions: Seq<Question>,
) -> Result<Timestamp, QuizError> {
    if !(user.role == UserRole::Admin || is_member) {
        Err(QuizError::Forbidden)
    } else if !banks_in_course {
        Err(QuizError::InvalidBanksForCourse)
    } else if (input.question_count as usize) > questions.len() {
        Err(QuizError::InvalidQuestionCount)
    } else {
        match spec_rfc3339_micros(input.starts_at@) {
            None => Err(QuizError::InvalidStartTime),
            Some(t) => Ok(t),
        }
    }
}

/// Whether `q` is the quiz requested by `input`, with join code
/// `join_code`, starting at `starts_at`, open and not deleted.
pub open spec fn new_quiz(input: CreateQuizDto, join_code: String, starts_at: Timestamp, q: Quiz) -> bool {
    &&& q.course_id == input.course_id
    &&& q.title == input.title
    &&& q.kind == input.kind
    &&& q.join_code == join_code
    &&& q.question_count == input.question_count
    &&& q.certainty_table == (match input.certainty_config {
        Some(c) => Some(table_from_dto(c)),
        None => None,
    })
    &&& q.attempt_duration_minutes == input.attempt_duration_minutes
    &&& q.starts_at == starts_at
    &&& q.closed_at is None
    &&& q.deleted_at is None
}

/// What creating a quiz answers, with ids `quiz_id` and `snapshot_id`, at
/// instant `now`.
pub open spec fn create_outcome(
    user: User,
    input: CreateQuizDto,
    is_member: bool,
    banks_in_course: bool,
    questions: Seq<Question>,
    join_code: String,
    quiz_id: QuizId,
    snapshot_id: u128,
    now: Timestamp,
    r: Result<Quiz, QuizError>,
) -> bool {
    match create_check(user, input, is_member, banks_in_course, questions) {
        Err(e) => r == Err::<Quiz, QuizError>(e),
        Ok(t) => r matches Ok(q) && new_quiz(input, join_code, t, q) && q.id == quiz_id
            && q.snapshot_id == snapshot_id && q.created_at == now,
    }
}

/// Copies a course.
pub fn clone_course(c: &Course) -> (r: Course)
    ensures
        r == *c,
{
    Course {
        id: c.id,
        name: c.name.clone(),
        code: c.code.clone(),
        year: c.year,
        deleted_at: c.deleted_at,
    }
}

/// The course with the given id in a list; where two share the id, the
/// later one.
pub open spec fn course_by_id(courses: Seq<Course>, id: CourseId) -> Option<Course>
    decreases courses.len(),
{
    if courses.len() == 0 {
        None
    } else if courses.last().id == id {
        Some(courses.last())
    } else {
        course_by_id(courses.drop_last(), id)
    }
}

/// The views of the quizzes whose course is in the list, in order.
pub open spec fn managed_views(quizzes: Seq<Quiz>, courses: Seq<Course>) -> Seq<QuizView>
    decreases quizzes.len(),
{
    if quizzes.len() == 0 {
        Seq::empty()
    } else {
        let rest = managed_views(quizzes.drop_last(), courses);
        match course_by_id(courses, quizzes.last().course_id) {
            Some(c) => rest.push(quiz_view_of(quizzes.last(), c)),
            None => rest,
        }
    }
}

/// Finds the course with the given id, the later one of two.
fn find_course(courses: &Vec<Course>, id: CourseId) -> (r: Option<Course>)
    ensures
        r == course_by_id(courses@, id),
{
    let mut j: usize = courses.len();
    proof {
        assert(courses@.take(j as int) == courses@);
    }
    while j > 0
        invariant
            j <= courses@.len(),
            course_by_id(courses@, id) == course_by_id(courses@.take(j as int), id),
        decreases j,
    {
        proof {
            assert(courses@.take(j as int).drop_last() == courses@.take(j - 1));
        }
        if courses[j - 1].id == id {
            return Some(clone_course(&courses[j - 1]));
        }
        j = j - 1;
    }
    None
}

/// Whether a list of ids holds each id of `quizzes`' courses, and no other,
/// each once.
pub open spec fn lists_course_ids(ids: Seq<CourseId>, quizzes: Seq<Quiz>) -> bool {
    &&& ids.no_duplicates()
    &&& forall|i: int| 0 <= i < ids.len() ==> exists|j: int| 0 <= j < quizzes.len() && quizzes[j].course_id == #[trigger] ids[i]
    &&& forall|j: int| 0 <= j < quizzes.len() ==> ids.contains(#[trigger] quizzes[j].course_id)
}

impl QuizService {
    /// The courses of a list of quizzes, each once, to look up.
    pub fn managed_course_ids(&self, quizzes: &Vec<Quiz>) -> (r: Vec<CourseId>)
        ensures
            lists_course_ids(r@, quizzes@),
    {
        let mut ids: Vec<CourseId> = Vec::new();
        let mut i: usize = 0;
        while i < quizzes.len()
            invariant
                i <= quizzes@.len(),
                lists_course_ids(ids@, quizzes@.take(i as int)),
            decreases quizzes@.len() - i,
        {
            let id = quizzes[i].course_id;
            let mut seen = false;
            let mut k: usize = 0;
            while k < ids.len()
                invariant
                    k <= ids@.len(),
                    seen <==> exists|m: int| 0 <= m < k && ids@[m] == id,
                decreases ids@.len() - k,
            {
                if ids[k] == id {
                    seen = true;
                }
                k = k + 1;
            }
            let ghost before = ids@;
            if !seen {
                ids.push(id);
            }
            proof {
                let q1 = quizzes@.take(i as int + 1);
                assert(q1.drop_last() == quizzes@.take(i as int));
                assert(q1[i as int].course_id == id);
                assert forall|a: int| 0 <= a < ids@.len() implies exists|j: int|
                    0 <= j < q1.len() && q1[j].course_id == #[trigger] ids@[a] by {
                    if a < before.len() {
                        let j = choose|j: int|
                            0 <= j < quizzes@.take(i as int).len() && quizzes@.take(
                                i as int,
                            )[j].course_id == before[a];
                        assert(q1[j] == quizzes@.take(i as int)[j]);
                    } else {
                        assert(q1[i as int].course_id == ids@[a]);
                    }
                }
                assert forall|j: int| 0 <= j < q1.len() implies ids@.contains(
                    #[trigger] q1[j].course_id,
                ) by {
                    if j < i {
                        assert(q1[j] == quizzes@.take(i as int)[j]);
                        assert(before.contains(q1[j].course_id));
                        let m = choose|m: int| 0 <= m < before.len() && before[m] == q1[j].course_id;
                        assert(ids@[m] == before[m]);
                    } else {
                        if seen {
                            let m = choose|m: int| 0 <= m < k && ids@[m] == id;
                            assert(ids@[m] == id);
                        } else {
                            assert(ids@[before.len() as int] == id);
                        }
                    }
                }
            }
            i = i + 1;
        }
        proof {
            assert(quizzes@.take(quizzes@.len() as int) == quizzes@);
        }
        ids
    }

    /// The views of the quizzes whose course was found, in order, each with
    /// its course.
    pub fn list_managed_by_user(&self, quizzes: Vec<Quiz>, courses: &Vec<Course>) -> (r: Vec<QuizView>)
        ensures
            r@ == managed_views(quizzes@, courses@),
    {
        let ghost qs = quizzes@;
        let mut rest = quizzes;
        let n = rest.len();
        let mut views: Vec<QuizView> = Vec::new();
        let mut k: usize = 0;
        proof {
            assert(qs.skip(0) == qs);
        }
        while rest.len() > 0
            invariant
                n == qs.len(),
                k + rest@.len() == qs.len(),
                rest@ == qs.skip(k as int),
                views@ == managed_views(qs.take(k as int), courses@),
            decreases rest@.len(),
        {
            let quiz = rest.remove(0);
            proof {
                assert(quiz == qs[k as int]);
                assert(qs.skip(k as int).remove(0) == qs.skip(k as int + 1));
                assert(qs.take(k as int + 1).drop_last() == qs.take(k as int));
                assert(qs.take(k as int + 1).last() == quiz);
            }
            match find_course(courses, quiz.course_id) {
                Some(course) => {
                    views.push(QuizView::from((quiz, course)));
                },
                None => {},
            }
            k = k + 1;
        }
        proof {
            assert(qs.take(qs.len() as int) == qs);
        }
        views
    }

    /// The staff's view of a quiz the user may manage (see
    /// `QuizPolicy::require_managed_quiz`), with its course.
    pub fn get_one(
        &self,
        current_user: &User,
        quiz_id: QuizId,
        found: Option<Quiz>,
        is_member: bool,
        course: Option<Course>,
    ) -> (r: Result<QuizView, QuizError>)
        ensures
            match found {
                None => r matches Err(e) && quiz_not_found_text(e, uuid_text(quiz_id)),
                Some(q) => if !(current_user.role == UserRole::Admin || is_member) {
                    r matches Err(QuizError::Forbidden)
                } else {
                    match course {
                        None => r matches Err(e) && quiz_not_found_text(e, uuid_text(q.course_id)),
                        Some(c) => r matches Ok(v) && v == quiz_view_of(q, c),
                    }
                },
            },
    {
        let quiz = match self.policy.require_managed_quiz(current_user, quiz_id, found, is_member) {
            Err(e) => {
                return Err(e);
            },
            Ok(q) => q,
        };
        let course = match course {
            None => {
                return Err(QuizError::NotFound(uuid_string(quiz.course_id)));
            },
            Some(c) => c,
        };
        Ok(QuizView::from((quiz, course)))
    }

    /// The preview of the quiz with the given join code, unless it is
    /// closed.
    pub fn get_join_preview(&self, code: &str, found: Option<Quiz>) -> (r: Result<
        JoinQuizPreviewView,
        QuizError,
    >)
        ensures
            match found {
                None => r matches Err(e) && quiz_not_found_text(e, code@),
                Some(q) => if q.closed_at is Some {
                    r matches Err(QuizError::Closed)
                } else {
                    r matches Ok(p) && p.quiz_id == q.id && p.title == q.title && p.kind == q.kind
                        && p.starts_at == q.starts_at
                },
            },
    {
        let quiz = match found {
            None => {
                return Err(QuizError::NotFound(code.to_owned()));
            },
            Some(q) => q,
        };
        if quiz.closed_at.is_some() {
            return Err(QuizError::Closed);
        }
        Ok(JoinQuizPreviewView::from(&quiz))
    }

    /// The id of the quiz with the given join code, as the database `found`
    /// it, to look up a result by.
    pub fn resolve_by_code_for_results(&self, code: &str, found: Option<Quiz>) -> (r: Result<QuizId, QuizError>)
        ensures
            match found {
                None => r matches Err(e) && quiz_not_found_text(e, code@),
                Some(q) => r == Ok::<QuizId, QuizError>(q.id),
            },
    {
        match found {
            None => Err(QuizError::NotFound(code.to_owned())),
            Some(q) => Ok(q.id),
        }
    }

    /// The quiz with the given join code, whose result the user may see:
    /// admins and members of its course.
    pub fn get_my_result_by_join_code(
        &self,
        current_user: &User,
        code: &str,
        found: Option<Quiz>,
        is_member: bool,
    ) -> (r: Result<QuizId, QuizError>)
        ensures
            match found {
                None => r matches Err(e) && quiz_not_found_text(e, code@),
                Some(q) => if current_user.role != UserRole::Admin && !is_member {
                    r matches Err(QuizError::Forbidden)
                } else {
                    r == Ok::<QuizId, QuizError>(q.id)
                },
            },
    {
        let quiz = match found {
            None => {
                return Err(QuizError::NotFound(code.to_owned()));
            },
            Some(q) => q,
        };
        if current_user.role != UserRole::Admin && !is_member {
            return Err(QuizError::Forbidden);
        }
        Ok(quiz.id)
    }

    /// The checks of a request to create a quiz, in order: the user may
    /// create quizzes in the course, the banks belong to it, they hold as
    /// many questions as the quiz asks, and the start time is RFC 3339. On
    /// success, the start instant.
    pub fn check_create_request(
        &self,
        current_user: &User,
        input: &CreateQuizDto,
        is_member: bool,
        banks_in_course: bool,
        questions: &Vec<Question>,
    ) -> (r: Result<Timestamp, QuizError>)
        ensures
            r == create_check(*current_user, *input, is_member, banks_in_course, questions@),
    {
        match self.policy.check_can_create_quiz(current_user, is_member) {
            Err(e) => {
                return Err(e);
            },
            Ok(_) => {},
        }
        if !banks_in_course {
            return Err(QuizError::InvalidBanksForCourse);
        }
        if input.question_count as usize > questions.len() {
            return Err(QuizError::InvalidQuestionCount);
        }
        match parse_rfc3339_micros(input.starts_at.as_str()) {
            None => Err(QuizError::InvalidStartTime),
            Some(t) => Ok(t),
        }
    }

    /// Builds a new quiz at instant `now` with the given ids and join code.
    /// `is_member` tells whether the user belongs to the course,
    /// `banks_in_course` whether all requested banks belong to it, and
    /// `questions` are the banks' questions.
    pub fn create_at(
        &self,
        current_user: &User,
        input: CreateQuizDto,
        is_member: bool,
        banks_in_course: bool,
        questions: &Vec<Question>,
        join_code: String,
        quiz_id: QuizId,
        snapshot_id: u128,
        now: Timestamp,
    ) -> (r: Result<Quiz, QuizError>)
        ensures
            create_outcome(
                *current_user,
                input,
                is_member,
                banks_in_course,
                questions@,
                join_code,
                quiz_id,
                snapshot_id,
                now,
                r,
            ),
    {
        let starts_at = match self.check_create_request(
            current_user,
            &input,
            is_member,
            banks_in_course,
            questions,
        ) {
            Err(e) => {
                return Err(e);
            },
            Ok(t) => t,
        };
        let certainty_table = match input.certainty_config {
            Some(c) => Some(CertaintyTable::from(c)),
            None => None,
        };
        Ok(
            Quiz {
                id: quiz_id,
                course_id: input.course_id,
                snapshot_id,
                title: input.title,
                kind: input.kind,
                join_code,
                question_count: input.question_count,
                certainty_table,
                attempt_duration_minutes: input.attempt_duration_minutes,
                starts_at,
                closed_at: None,
                created_at: now,
                deleted_at: None,
            },
        )
    }

    /// `create_at` now, with fresh random ids for the quiz and its
    /// snapshot. The ids and the instant decide no outcome: every refusal
    /// and every field but those three are fixed by the request.
    pub fn create(
        &self,
        current_user: &User,
        input: CreateQuizDto,
        is_member: bool,
        banks_in_course: bool,
        questions: &Vec<Question>,
        join_code: String,
    ) -> (r: Result<Quiz, QuizError>)
        ensures
            match create_check(*current_user, input, is_member, banks_in_course, questions@) {
                Err(e) => r == Err::<Quiz, QuizError>(e),
                Ok(t) => r matches Ok(q) && new_quiz(input, join_code, t, q),
            },
            exists|quiz_id: QuizId, snapshot_id: u128, now: Timestamp|
                valid_instant(now as int) && #[trigger] create_outcome(
                    *current_user,
                    input,
                    is_member,
                    banks_in_course,
                    questions@,
                    join_code,
                    quiz_id,
                    snapshot_id,
                    now,
                    r,
                ),
    {
        let quiz_id = new_uuid();
        let snapshot_id = new_uuid();
        let now = now_micros();
        let r = self.create_at(
            current_user,
            input,
            is_member,
            banks_in_course,
            questions,
            join_code,
            quiz_id,
            snapshot_id,
            now,
        );
        assert(create_outcome(
            *current_user,
            input,
            is_member,
            banks_in_course,
            questions@,
            join_code,
            quiz_id,
            snapshot_id,
            now,
            r,
        ));
        r
    }

    /// The quiz to delete, if the user may manage it (see
    /// `QuizPolicy::require_managed_quiz`).
    pub fn delete_quiz(&self, current_user: &User, quiz_id: QuizId, found: Option<Quiz>, is_member: bool) -> (r:
        Result<QuizId, QuizError>)
        ensures
            match found {
                None => r matches Err(e) && quiz_not_found_text(e, uuid_text(quiz_id)),
                Some(q) => if current_user.role == UserRole::Admin || is_member {
                    r == Ok::<QuizId, QuizError>(q.id)
                } else {
                    r matches Err(QuizError::Forbidden)
                },
            },
    {
        match self.policy.require_managed_quiz(current_user, quiz_id, found, is_member) {
            Err(e) => Err(e),
            Ok(q) => Ok(q.id),
        }
    }

    /// The outcome of deleting a quiz: refused as not found when no quiz was
    /// deleted.
    pub fn deletion_outcome(&self, quiz_id: QuizId, deleted: bool) -> (r: Result<(), QuizError>)
        ensures
            deleted ==> r is Ok,
            !deleted ==> (r matches Err(e) && quiz_not_found_text(e, uuid_text(quiz_id))),
    {
        if !deleted {
            return Err(QuizError::NotFound(uuid_string(quiz_id)));
        }
        Ok(())
    }

    /// A random join code of eight ASCII letters or digits.
    pub fn generate_join_code_candidate() -> (r: String)
        ensures
            r@.len() == JOIN_CODE_LENGTH,
            forall|i: int| 0 <= i < r@.len() ==> is_alnum_char(#[trigger] r@[i]),
    {
        let mut code = String::new();
        let mut i: usize = 0;
        while i < JOIN_CODE_LENGTH
            invariant
                i <= JOIN_CODE_LENGTH,
                code@.len() == i,
                forall|j: int| 0 <= j < code@.len() ==> is_alnum_char(#[trigger] code@[j]),
            decreases JOIN_CODE_LENGTH - i,
        {
            let b = random_alphanumeric();
            push_char(&mut code, b as char);
            i = i + 1;
        }
        code
    }

    /// Checks the users to make collaborators of a quiz owned by
    /// `owner_id`: `found[i]` is the user stored under
    /// `collaborator_ids[i]`. The owner is skipped; every other id must name
    /// an assistant or a func user.
    pub fn validate_collaborators(
        &self,
        collaborator_ids: &[UserId],
        owner_id: UserId,
        found: &Vec<Option<User>>,
    ) -> (r: Result<(), QuizError>)
        requires
            found@.len() == collaborator_ids@.len(),
        ensures
            r == collaborator_check(collaborator_ids@, owner_id, found@),
    {
        let mut i: usize = 0;
        proof {
            assert(collaborator_ids@.skip(0) == collaborator_ids@);
            assert(found@.skip(0) == found@);
        }
        while i < collaborator_ids.len()
            invariant
                i <= collaborator_ids@.len(),
                found@.len() == collaborator_ids@.len(),
                collaborator_check(collaborator_ids@, owner_id, found@) == collaborator_check(
                    collaborator_ids@.skip(i as int),
                    owner_id,
                    found@.skip(i as int),
                ),
            decreases collaborator_ids@.len() - i,
        {
            proof {
                assert(collaborator_ids@.skip(i as int).drop_first() == collaborator_ids@.skip(
                    i as int + 1,
                ));
                assert(found@.skip(i as int).drop_first() == found@.skip(i as int + 1));
                assert(collaborator_ids@.skip(i as int)[0] == collaborator_ids@[i as int]);
                assert(found@.skip(i as int)[0] == found@[i as int]);
            }
            if collaborator_ids[i] != owner_id {
                match &found[i] {
                    None => {
                        return Err(QuizError::CollaboratorNotFound);
                    },
                    Some(user) => {
                        if !staff_role(user.role) {
                            return Err(QuizError::InvalidCollaboratorRole);
                        }
                    },
                }
            }
            i = i + 1;
        }
        Ok(())
    }

    /// The collaborators to add to a new quiz: every id but the owner's.
    pub fn collaborators_to_add(&self, collaborator_ids: &[UserId], owner_id: UserId) -> (r: Vec<UserId>)
        ensures
            r@ == collaborator_ids@.filter(|id: UserId| id != owner_id),
    {
        let mut r: Vec<UserId> = Vec::new();
        let mut i: usize = 0;
        while i < collaborator_ids.len()
            invariant
                i <= collaborator_ids@.len(),
                r@ == collaborator_ids@.take(i as int).filter(|id: UserId| id != owner_id),
            decreases collaborator_ids@.len() - i,
        {
            proof {
                reveal_with_fuel(Seq::filter, 1);
                assert(collaborator_ids@.take(i as int + 1).drop_last() == collaborator_ids@.take(
                    i as int,
                ));
            }
            if collaborator_ids[i] != owner_id {
                r.push(collaborator_ids[i]);
            }
            i = i + 1;
        }
        proof {
            assert(collaborator_ids@.take(collaborator_ids@.len() as int) == collaborator_ids@);
        }
        r
    }

    /// Whether a user must be added as a collaborator of a quiz owned by
    /// `owner_id`: not the owner (a no-op), and refused if already one.
    pub fn add_collaborator(&self, user_id: UserId, owner_id: UserId, is_collaborator: bool) -> (r:
        Result<bool, QuizError>)
        ensures
            user_id == owner_id ==> r == Ok::<bool, QuizError>(false),
            user_id != owner_id && is_collaborator ==> r matches Err(
                QuizError::CollaboratorAlreadyExists,
            ),
            user_id != owner_id && !is_collaborator ==> r == Ok::<bool, QuizError>(true),
    {
        if user_id == owner_id {
            return Ok(false);
        }
        if is_collaborator {
            return Err(QuizError::CollaboratorAlreadyExists);
        }
        Ok(true)
    }

    /// The outcome of removing a collaborator: refused when there was none.
    pub fn remove_collaborator(&self, removed: bool) -> (r: Result<(), QuizError>)
        ensures
            removed ==> r is Ok,
            !removed ==> r matches Err(QuizError::CollaboratorNotFound),
    {
        if !removed {
            return Err(QuizError::CollaboratorNotFound);
        }
        Ok(())
    }

    /// The collaborators of a quiz shown to a user: the owner, if a func
    /// user, sees everyone; others do not see the owner.
    pub fn list_collaborators(&self, current_user: &User, owner_id: UserId, users: Vec<User>) -> (r:
        Vec<User>)
        ensures
            current_user.role == UserRole::Func && owner_id == current_user.id ==> r@ == users@,
            !(current_user.role == UserRole::Func && owner_id == current_user.id) ==> r@
                == users@.filter(|u: User| u.id != owner_id),
    {
        if current_user.role == UserRole::Func && owner_id == current_user.id {
            return users;
        }
        let ghost us = users@;
        let mut rest = users;
        let n = rest.len();
        let mut kept: Vec<User> = Vec::new();
        let mut k: usize = 0;
        proof {
            assert(us.skip(0) == us);
        }
        while rest.len() > 0
            invariant
                n == us.len(),
                k + rest@.len() == us.len(),
                rest@ == us.skip(k as int),
                kept@ == us.take(k as int).filter(|u: User| u.id != owner_id),
            decreases rest@.len(),
        {
            let u = rest.remove(0);
            proof {
                reveal_with_fuel(Seq::filter, 1);
                assert(u == us[k as int]);
                assert(us.skip(k as int).remove(0) == us.skip(k as int + 1));
                assert(us.take(k as int + 1).drop_last() == us.take(k as int));
            }
            if u.id != owner_id {
                kept.push(u);
            }
            k = k + 1;
        }
        proof {
            assert(us.take(us.len() as int) == us);
        }
        kept
    }
}

/// The outcome of checking collaborators, in order.
pub open spec fn collaborator_check(ids: Seq<UserId>, owner_id: UserId, found: Seq<Option<User>>) -> Result<
    (),
    QuizError,
>
    decreases ids.len(),
{
    if ids.len() == 0 || found.len() == 0 {
        Ok(())
    } else if ids[0] == owner_id {
        collaborator_check(ids.drop_first(), owner_id, found.drop_first())
    } else {
        match found[0] {
            None => Err(QuizError::CollaboratorNotFound),
            Some(u) => if !is_staff_role(u.role) {
                Err(QuizError::InvalidCollaboratorRole)
            } else {
                collaborator_check(ids.drop_first(), owner_id, found.drop_first())
            },
        }
    }
}

} // verus!
