//! The errors that the server answers requests with.
use vstd::prelude::*;

use crate::attempts::errors::AttemptError;
use crate::authz::AuthzError;
use crate::banks::errors::QuestionBankError;
use crate::courses::errors::CoursesError;
use crate::quizzes::errors::QuizError;

verus! {

/// Any refusal of a request that the library decides on. Failures of the
/// database, of I/O, of LDAP and of token decoding are added by the server.
#[derive(Clone, Debug)]
pub enum AppError {
    Quiz(QuizError),
    Attempt(AttemptError),
    Courses(CoursesError),
    QuestionBank(QuestionBankError),
    Authz(AuthzError),
    TokenNotFound,
    InvalidToken,
    BadRequest(String),
    LdapEmailNotFound,
    LdapUsernameNotFound(String),
}

} // verus!
