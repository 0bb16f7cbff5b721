use vstd::prelude::*;

use crate::courses::entity::{Course, CourseId};
use crate::users::{UserId, UserRole};

verus! {

/// A member of a course as shown to users.
#[derive(Clone, Debug)]
pub struct CourseMemberView {
    pub user_id: UserId,
    pub username: String,
    pub name: String,
    pub role: UserRole,
}

/// A course with its members, as shown to users.
#[derive(Clone, Debug)]
pub struct CourseView {
    pub id: CourseId,
    pub name: String,
    pub code: String,
    pub year: i16,
    pub members: Vec<CourseMemberView>,
}

/// Whether `b` is a field-by-field copy of `a`.
pub open spec fn same_member(a: CourseMemberView, b: CourseMemberView) -> bool {
    a.user_id == b.user_id && a.username@ == b.username@ && a.name@ == b.name@ && a.role == b.role
}

/// A field-by-field copy of a member view.
pub fn copy_member(m: &CourseMemberView) -> (r: CourseMemberView)
    ensures
        same_member(*m, r),
{
    CourseMemberView {
        user_id: m.user_id,
        username: m.username.clone(),
        name: m.name.clone(),
        role: m.role,
    }
}

/// A copy of a list of member views, in the same order.
pub fn copy_members(members: &Vec<CourseMemberView>) -> (r: Vec<CourseMemberView>)
    ensures
        r@.len() == members@.len(),
        forall|i: int| 0 <= i < members@.len() ==> same_member(members@[i], #[trigger] r@[i]),
{
    let mut out: Vec<CourseMemberView> = Vec::new();
    let mut i: usize = 0;
    while i < members.len()
        invariant
            i <= members@.len(),
            out@.len() == i,
            forall|j: int| 0 <= j < i ==> same_member(members@[j], #[trigger] out@[j]),
        decreases members@.len() - i,
    {
        out.push(copy_member(&members[i]));
        i = i + 1;
    }
    out
}

impl CourseView {
    /// The view of a course with the given members.
    pub fn from(course: &Course, members: &Vec<CourseMemberView>) -> (r: CourseView)
        ensures
            r.id == course.id,
            r.name@ == course.name@,
            r.code@ == course.code@,
            r.year == course.year,
            r.members@.len() == members@.len(),
            forall|i: int| 0 <= i < members@.len() ==> same_member(members@[i], #[trigger] r.members@[i]),
    {
        CourseView {
            id: course.id,
            name: course.name.clone(),
            code: course.code.clone(),
            year: course.year,
            members: copy_members(members),
        }
    }
}

} // verus!
