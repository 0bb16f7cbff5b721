use vstd::prelude::*;

verus! {

/// Identifier of a user (the 128-bit value of its UUID).
pub type UserId = u128;

/// Role of a user in the system.
#[derive(Clone, Copy, Debug, PartialEq, Eq, Structural)]
pub enum UserRole {
    Func,
    Assistant,
    Student,
    Admin,
}

/// An authenticated user.
#[derive(Clone, Debug)]
pub struct User {
    pub id: UserId,
    pub username: String,
    pub email: String,
    pub name: String,
    pub role: UserRole,
}

/// Whether a role is one of the staff roles that may belong to a course
/// or collaborate on a quiz.
pub open spec fn is_staff_role(role: UserRole) -> bool {
    role == UserRole::Func || role == UserRole::Assistant
}

/// Executable form of `is_staff_role`.
pub fn staff_role(role: UserRole) -> (r: bool)
    ensures
        r == is_staff_role(role),
{
    match role {
        UserRole::Func | UserRole::Assistant => true,
        _ => false,
    }
}

} // verus!
