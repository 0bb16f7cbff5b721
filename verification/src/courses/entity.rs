use vstd::prelude::*;

use crate::support::Timestamp;
use crate::users::{UserId, UserRole};

verus! {

/// Identifier of a course.
pub type CourseId = u128;

/// A course.
#[derive(Clone, Debug)]
pub struct Course {
    pub id: CourseId,
    pub name: String,
    pub code: String,
    pub year: i16,
    pub deleted_at: Option<Timestamp>,
}

/// The membership of a user in a course, with the role it holds there.
#[derive(Clone, Copy, Debug, PartialEq, Eq, Structural)]
pub struct CourseMember {
    pub id: u128,
    pub course_id: CourseId,
    pub user_id: UserId,
    pub role: UserRole,
}

impl Course {
    /// The key under which courses are stored.
    pub fn key_name() -> (r: &'static str)
        ensures
            r@ == "course"@,
    {
        proof {
            reveal_strlit("course");
        }
        "course"
    }
}

} // verus!
