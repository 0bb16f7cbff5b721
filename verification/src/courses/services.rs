use vstd::prelude::*;

use crate::courses::dtos::{AddCourseMemberDto, CreateCourseDto};
use crate::courses::entity::{Course, CourseId, CourseMember};
use crate::courses::errors::CoursesError;
use crate::support::{new_uuid, uuid_string, uuid_text};
use crate::users::{is_staff_role, staff_role, User, UserRole};

verus! {

/// Who may see a course and who may manage its members.
pub struct CoursePolicy;

/// Creates and deletes courses and manages their members.
pub struct CoursesService {
    pub policy: CoursePolicy,
}

/// Whether `e` is the not-found error for course `id`.
pub open spec fn course_not_found(e: CoursesError, id: CourseId) -> bool {
    e matches CoursesError::NotFound(s) && s@ == uuid_text(id)
}

/// The outcome of checking that a user may see a course: the course must
/// exist and the user must belong to it.
pub open spec fn accessible(course_id: CourseId, found: Option<Course>, is_member: bool, r: Result<Course, CoursesError>) -> bool {
    match found {
        None => r matches Err(e) && course_not_found(e, course_id),
        Some(c) => if !is_member {
            r matches Err(CoursesError::Forbidden)
        } else {
            r == Ok::<Course, CoursesError>(c)
        },
    }
}

/// The outcome of checking that a user may manage the members of a
/// course: it must be accessible and the user a `Func` member of it.
pub open spec fn manageable(
    course_id: CourseId,
    found: Option<Course>,
    is_member: bool,
    is_func_member: bool,
    r: Result<Course, CoursesError>,
) -> bool {
    match found {
        None => r matches Err(e) && course_not_found(e, course_id),
        Some(c) => if !is_member {
            r matches Err(CoursesError::Forbidden)
        } else if !is_func_member {
            r matches Err(CoursesError::OnlyFuncCanManageMembers)
        } else {
            r == Ok::<Course, CoursesError>(c)
        },
    }
}

/// What a successful creation of a course yields: the course and the
/// membership of its creator.
pub open spec fn created_from(
    input: CreateCourseDto,
    user: User,
    course_id: CourseId,
    member_id: u128,
    course: Course,
    creator: CourseMember,
) -> bool {
    &&& course.id == course_id
    &&& course.name@ == input.name@
    &&& course.code@ == input.code@
    &&& course.year == input.year
    &&& course.deleted_at is None
    &&& creator.id == member_id
    &&& creator.course_id == course_id
    &&& creator.user_id == user.id
    &&& creator.role == user.role
}

impl CoursePolicy {
    /// The course `course_id`, as the database `found` it, if the user
    /// belongs to it (`is_member`).
    pub fn require_accessible_course(
        &self,
        current_user: &User,
        course_id: CourseId,
        found: Option<Course>,
        is_member: bool,
    ) -> (r: Result<Course, CoursesError>)
        ensures
            accessible(course_id, found, is_member, r),
    {
        let course = match found {
            None => {
                return Err(CoursesError::NotFound(uuid_string(course_id)));
            },
            Some(c) => c,
        };
        if !is_member {
            return Err(CoursesError::Forbidden);
        }
        Ok(course)
    }

    /// The course `course_id` if the user belongs to it as a `Func`
    /// member (`is_func_member`).
    pub fn require_func_member(
        &self,
        current_user: &User,
        course_id: CourseId,
        found: Option<Course>,
        is_member: bool,
        is_func_member: bool,
    ) -> (r: Result<Course, CoursesError>)
        ensures
            manageable(course_id, found, is_member, is_func_member, r),
    {
        let course = match self.require_accessible_course(current_user, course_id, found, is_member) {
            Err(e) => {
                return Err(e);
            },
            Ok(c) => c,
        };
        if !is_func_member {
            return Err(CoursesError::OnlyFuncCanManageMembers);
        }
        Ok(course)
    }
}

impl CoursesService {
    /// The course requested and the membership of its creator, with ids
    /// `course_id` and `member_id`: only staff create courses, and a code
    /// may be used once (`code_taken` tells whether it is).
    pub fn create_with_ids(
        &self,
        current_user: &User,
        input: CreateCourseDto,
        code_taken: bool,
        course_id: CourseId,
        member_id: u128,
    ) -> (r: Result<(Course, CourseMember), CoursesError>)
        ensures
            !is_staff_role(current_user.role) ==> r matches Err(CoursesError::Forbidden),
            is_staff_role(current_user.role) && code_taken ==> r matches Err(
                CoursesError::CodeAlreadyExists,
            ),
            is_staff_role(current_user.role) && !code_taken ==> (r matches Ok((c, m)) && created_from(
                input,
                *current_user,
                course_id,
                member_id,
                c,
                m,
            )),
    {
        if !staff_role(current_user.role) {
            return Err(CoursesError::Forbidden);
        }
        if code_taken {
            return Err(CoursesError::CodeAlreadyExists);
        }
        let course = Course {
            id: course_id,
            name: input.name,
            code: input.code,
            year: input.year,
            deleted_at: None,
        };
        let creator = CourseMember {
            id: member_id,
            course_id,
            user_id: current_user.id,
            role: current_user.role,
        };
        Ok((course, creator))
    }

    /// `create_with_ids` with fresh random ids.
    pub fn create(&self, current_user: &User, input: CreateCourseDto, code_taken: bool) -> (r: Result<
        (Course, CourseMember),
        CoursesError,
    >)
        ensures
            !is_staff_role(current_user.role) ==> r matches Err(CoursesError::Forbidden),
            is_staff_role(current_user.role) && code_taken ==> r matches Err(
                CoursesError::CodeAlreadyExists,
            ),
            is_staff_role(current_user.role) && !code_taken ==> (r matches Ok((c, m)) && created_from(
                input,
                *current_user,
                c.id,
                m.id,
                c,
                m,
            )),
    {
        let course_id = new_uuid();
        let member_id = new_uuid();
        self.create_with_ids(current_user, input, code_taken, course_id, member_id)
    }

    /// The outcome of deleting a course: refused as not found when the
    /// database deleted none.
    pub fn soft_delete_outcome(&self, course_id: CourseId, deleted: bool) -> (r: Result<(), CoursesError>)
        ensures
            deleted ==> r is Ok,
            !deleted ==> (r matches Err(e) && course_not_found(e, course_id)),
    {
        if !deleted {
            return Err(CoursesError::NotFound(uuid_string(course_id)));
        }
        Ok(())
    }

    /// The membership to add for the requested user, as the database
    /// `found` it, with id `member_id`: the user must exist, be staff and
    /// not belong to the course yet (`already_member`).
    pub fn add_member_with_id(
        &self,
        course_id: CourseId,
        input: AddCourseMemberDto,
        found: Option<User>,
        already_member: bool,
        member_id: u128,
    ) -> (r: Result<CourseMember, CoursesError>)
        ensures
            match found {
                None => r matches Err(CoursesError::MemberNotFound),
                Some(t) => if !is_staff_role(t.role) {
                    r matches Err(CoursesError::InvalidMemberRole)
                } else if already_member {
                    r matches Err(CoursesError::MemberAlreadyExists)
                } else {
                    r == Ok::<CourseMember, CoursesError>(
                        CourseMember { id: member_id, course_id, user_id: t.id, role: t.role },
                    )
                },
            },
    {
        let target = match found {
            None => {
                return Err(CoursesError::MemberNotFound);
            },
            Some(t) => t,
        };
        if !staff_role(target.role) {
            return Err(CoursesError::InvalidMemberRole);
        }
        if already_member {
            return Err(CoursesError::MemberAlreadyExists);
        }
        Ok(CourseMember { id: member_id, course_id, user_id: target.id, role: target.role })
    }

    /// `add_member_with_id` with a fresh random id.
    pub fn add_member(
        &self,
        course_id: CourseId,
        input: AddCourseMemberDto,
        found: Option<User>,
        already_member: bool,
    ) -> (r: Result<CourseMember, CoursesError>)
        ensures
            match found {
                None => r matches Err(CoursesError::MemberNotFound),
                Some(t) => if !is_staff_role(t.role) {
                    r matches Err(CoursesError::InvalidMemberRole)
                } else if already_member {
                    r matches Err(CoursesError::MemberAlreadyExists)
                } else {
                    r matches Ok(m) && m.course_id == course_id && m.user_id == t.id && m.role
                        == t.role
                },
            },
    {
        let id = new_uuid();
        self.add_member_with_id(course_id, input, found, already_member, id)
    }

    /// Whether a member may leave a course: the last `Func` member may not.
    /// `role_member_count` is how many members hold the member's role.
    pub fn remove_course_member(
        &self,
        member: Option<CourseMember>,
        role_member_count: i64,
    ) -> (r: Result<CourseMember, CoursesError>)
        ensures
            match member {
                None => r matches Err(CoursesError::MemberNotFound),
                Some(m) => if m.role == UserRole::Func && role_member_count <= 1 {
                    r matches Err(CoursesError::CannotRemoveLastFuncMember)
                } else {
                    r == Ok::<CourseMember, CoursesError>(m)
                },
            },
    {
        let m = match member {
            None => {
                return Err(CoursesError::MemberNotFound);
            },
            Some(m) => m,
        };
        if m.role == UserRole::Func && role_member_count <= 1 {
            return Err(CoursesError::CannotRemoveLastFuncMember);
        }
        Ok(m)
    }

    /// The outcome of deleting a membership: refused as not found when the
    /// database removed none.
    pub fn removal_outcome(&self, removed: bool) -> (r: Result<(), CoursesError>)
        ensures
            removed ==> r is Ok,
            !removed ==> r matches Err(CoursesError::MemberNotFound),
    {
        if !removed {
            return Err(CoursesError::MemberNotFound);
        }
        Ok(())
    }
}

} // verus!
