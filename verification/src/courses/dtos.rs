use vstd::prelude::*;
use vstd::string::*;

use crate::users::UserId;

verus! {

/// The request to create a course.
#[derive(Clone, Debug)]
pub struct CreateCourseDto {
    pub name: String,
    pub code: String,
    pub year: i16,
}

/// The request to add a user to a course.
#[derive(Clone, Copy, Debug, PartialEq, Eq, Structural)]
pub struct AddCourseMemberDto {
    pub user_id: UserId,
}

/// A rule broken by a request to create a course.
#[derive(Clone, Copy, Debug, PartialEq, Eq, Structural)]
pub enum CourseInputFailure {
    /// The name does not have 1 to 120 characters.
    Name,
    /// The code does not have 2 to 32 characters.
    Code,
    /// The year is not between 2000 and 2100.
    Year,
}

/// Every rule a request to create a course breaks, field by field.
pub open spec fn create_course_failures(dto: CreateCourseDto) -> Seq<CourseInputFailure> {
    let f0: Seq<CourseInputFailure> = if 1 <= dto.name@.len() <= 120 {
        Seq::empty()
    } else {
        seq![CourseInputFailure::Name]
    };
    let f1 = if 2 <= dto.code@.len() <= 32 {
        f0
    } else {
        f0.push(CourseInputFailure::Code)
    };
    if 2000 <= dto.year <= 2100 {
        f1
    } else {
        f1.push(CourseInputFailure::Year)
    }
}

impl CreateCourseDto {
    /// Every rule the request breaks; lengths count characters.
    pub fn validate(&self) -> (r: Result<(), Vec<CourseInputFailure>>)
        ensures
            r is Ok <==> create_course_failures(*self).len() == 0,
            r matches Err(v) ==> v@ == create_course_failures(*self),
    {
        let mut v: Vec<CourseInputFailure> = Vec::new();
        let n = self.name.as_str().unicode_len();
        if !(1 <= n && n <= 120) {
            v.push(CourseInputFailure::Name);
        }
        let c = self.code.as_str().unicode_len();
        if !(2 <= c && c <= 32) {
            v.push(CourseInputFailure::Code);
        }
        if !(2000 <= self.year && self.year <= 2100) {
            v.push(CourseInputFailure::Year);
        }
        assert(v@ =~= create_course_failures(*self));
        if v.len() == 0 {
            Ok(())
        } else {
            Err(v)
        }
    }
}

} // verus!
