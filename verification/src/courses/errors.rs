use vstd::prelude::*;

verus! {

/// Why an operation on a course was refused.
#[derive(Clone, Debug)]
pub enum CoursesError {
    NotFound(String),
    InvalidId,
    Forbidden,
    OnlyFuncCanManageMembers,
    CodeAlreadyExists,
    MemberAlreadyExists,
    MemberNotFound,
    InvalidMemberRole,
    CannotRemoveLastFuncMember,
}

} // verus!
