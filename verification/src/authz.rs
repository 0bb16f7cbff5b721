//! Permissions of each role, and the guard that checks them on requests.
use vstd::prelude::*;

use crate::support::{uuid_string, uuid_text};
use crate::users::{User, UserId, UserRole};

verus! {

/// An action that a request asks to perform.
#[derive(Clone, Copy, Debug, PartialEq, Eq, Structural)]
pub enum AuthzAction {
    CourseList,
    CourseRead,
    CourseCreate,
    CourseDelete,
    CourseManageMembers,
    BankList,
    BankRead,
    BankCreate,
    BankUpdate,
    BankDelete,
    QuizReadManaged,
    QuizListManaged,
    QuizCreate,
    QuizUpdateManaged,
    QuizManageCollaborators,
    QuizJoinByCode,
    QuizViewAttemptResultByCode,
    QuizDeleteManaged,
    AttemptList,
    AttemptInitialize,
    AttemptSubmit,
    AttemptViewResults,
    UserListAdmin,
    UserListCollaboratorCandidates,
    UserManageAssistants,
}

/// Why a request was refused by the permission checks.
#[derive(Clone, Debug)]
pub enum AuthzError {
    Forbidden(AuthzAction),
    ActorNotFound(String),
}

/// The actions a func user may perform.
pub open spec fn func_allows(action: AuthzAction) -> bool {
    match action {
        AuthzAction::CourseCreate | AuthzAction::CourseList | AuthzAction::CourseRead
        | AuthzAction::CourseDelete | AuthzAction::CourseManageMembers | AuthzAction::BankCreate
        | AuthzAction::BankList | AuthzAction::BankRead | AuthzAction::BankUpdate
        | AuthzAction::BankDelete | AuthzAction::QuizCreate | AuthzAction::QuizListManaged
        | AuthzAction::QuizReadManaged | AuthzAction::QuizUpdateManaged
        | AuthzAction::QuizManageCollaborators | AuthzAction::QuizJoinByCode
        | AuthzAction::QuizDeleteManaged | AuthzAction::UserListAdmin
        | AuthzAction::UserListCollaboratorCandidates | AuthzAction::UserManageAssistants => true,
        _ => false,
    }
}

/// The actions an assistant may perform.
pub open spec fn assistant_allows(action: AuthzAction) -> bool {
    match action {
        AuthzAction::CourseCreate | AuthzAction::CourseList | AuthzAction::CourseRead
        | AuthzAction::BankCreate | AuthzAction::BankList | AuthzAction::BankRead
        | AuthzAction::BankUpdate | AuthzAction::BankDelete | AuthzAction::QuizCreate
        | AuthzAction::QuizListManaged | AuthzAction::QuizReadManaged
        | AuthzAction::QuizUpdateManaged | AuthzAction::UserListCollaboratorCandidates
        | AuthzAction::QuizManageCollaborators | AuthzAction::QuizDeleteManaged => true,
        _ => false,
    }
}

/// Whether a role may perform an action: admins may do everything,
/// students may only join quizzes by code.
pub open spec fn role_allows(role: UserRole, action: AuthzAction) -> bool {
    match role {
        UserRole::Func => func_allows(action),
        UserRole::Assistant => assistant_allows(action),
        UserRole::Student => action == AuthzAction::QuizJoinByCode,
        UserRole::Admin => true,
    }
}

/// Decides on permissions.
pub struct AuthzService;

impl AuthzService {
    /// Allows the action for the role, or refuses it as forbidden.
    pub fn authorize_role(&self, role: &UserRole, action: AuthzAction) -> (r: Result<(), AuthzError>)
        ensures
            r is Ok <==> role_allows(*role, action),
            r matches Err(e) ==> e == AuthzError::Forbidden(action),
    {
        let allowed = match role {
            UserRole::Func => match action {
                AuthzAction::CourseCreate | AuthzAction::CourseList | AuthzAction::CourseRead
                | AuthzAction::CourseDelete | AuthzAction::CourseManageMembers
                | AuthzAction::BankCreate | AuthzAction::BankList | AuthzAction::BankRead
                | AuthzAction::BankUpdate | AuthzAction::BankDelete | AuthzAction::QuizCreate
                | AuthzAction::QuizListManaged | AuthzAction::QuizReadManaged
                | AuthzAction::QuizUpdateManaged | AuthzAction::QuizManageCollaborators
                | AuthzAction::QuizJoinByCode | AuthzAction::QuizDeleteManaged
                | AuthzAction::UserListAdmin | AuthzAction::UserListCollaboratorCandidates
                | AuthzAction::UserManageAssistants => true,
                _ => false,
            },
            UserRole::Assistant => match action {
                AuthzAction::CourseCreate | AuthzAction::CourseList | AuthzAction::CourseRead
                | AuthzAction::BankCreate | AuthzAction::BankList | AuthzAction::BankRead
                | AuthzAction::BankUpdate | AuthzAction::BankDelete | AuthzAction::QuizCreate
                | AuthzAction::QuizListManaged | AuthzAction::QuizReadManaged
                | AuthzAction::QuizUpdateManaged | AuthzAction::UserListCollaboratorCandidates
                | AuthzAction::QuizManageCollaborators | AuthzAction::QuizDeleteManaged => true,
                _ => false,
            },
            UserRole::Student => match action {
                AuthzAction::QuizJoinByCode => true,
                _ => false,
            },
            UserRole::Admin => true,
        };
        if !allowed {
            return Err(AuthzError::Forbidden(action));
        }
        Ok(())
    }
}

/// Why the guard refused a request.
#[derive(Clone, Debug)]
pub enum GuardRejection {
    /// The request carried no session.
    Unauthorized,
    /// The session's user is unknown, or may not perform the action.
    Authz(AuthzError),
}

/// Checks, before a request is handled, that its user may perform the
/// request's action.
pub struct AuthzGuard {
    pub authz: AuthzService,
}

impl AuthzGuard {
    /// Decides on a request for `action`. `session_user` is the user named by
    /// the request's session claims, if it carried any; `found_user` is the
    /// user stored under that id, if there is one. The accepted user is
    /// handed on to the request's handler.
    pub fn on_request(
        &self,
        action: AuthzAction,
        session_user: Option<UserId>,
        found_user: Option<User>,
    ) -> (r: Result<User, GuardRejection>)
        ensures
            session_user is None ==> r matches Err(GuardRejection::Unauthorized),
            session_user matches Some(uid) ==> match found_user {
                None => r matches Err(GuardRejection::Authz(AuthzError::ActorNotFound(s)))
                    && s@ == uuid_text(uid),
                Some(u) => if role_allows(u.role, action) {
                    r matches Ok(v) && v == u
                } else {
                    r matches Err(GuardRejection::Authz(e)) && e == AuthzError::Forbidden(action)
                },
            },
    {
        let uid = match session_user {
            None => {
                return Err(GuardRejection::Unauthorized);
            },
            Some(uid) => uid,
        };
        let user = match found_user {
            None => {
                return Err(GuardRejection::Authz(AuthzError::ActorNotFound(uuid_string(uid))));
            },
            Some(u) => u,
        };
        match self.authz.authorize_role(&user.role, action) {
            Err(e) => Err(GuardRejection::Authz(e)),
            Ok(()) => Ok(user),
        }
    }
}

/// An assistant may do nothing that a func user may not.
pub proof fn lemma_assistant_within_func(action: AuthzAction)
    ensures
        role_allows(UserRole::Assistant, action) ==> role_allows(UserRole::Func, action),
{
}

/// An admin may perform every action.
pub proof fn lemma_admin_allowed_everything(action: AuthzAction)
    ensures
        role_allows(UserRole::Admin, action),
{
}

/// The only action a student may perform is joining a quiz by its code.
pub proof fn lemma_student_only_joins(action: AuthzAction)
    ensures
        role_allows(UserRole::Student, action) <==> action == AuthzAction::QuizJoinByCode,
{
}

/// A func user may do exactly this: manage courses, their members and
/// question banks, create and manage quizzes and their collaborators, join
/// quizzes by code, and list and manage users and assistants.
pub proof fn lemma_func_permissions(action: AuthzAction)
    ensures
        role_allows(UserRole::Func, action) <==> (action == AuthzAction::CourseCreate || action
            == AuthzAction::CourseList || action == AuthzAction::CourseRead || action
            == AuthzAction::CourseDelete || action == AuthzAction::CourseManageMembers || action
            == AuthzAction::BankCreate || action == AuthzAction::BankList || action
            == AuthzAction::BankRead || action == AuthzAction::BankUpdate || action
            == AuthzAction::BankDelete || action == AuthzAction::QuizCreate || action
            == AuthzAction::QuizListManaged || action == AuthzAction::QuizReadManaged || action
            == AuthzAction::QuizUpdateManaged || action == AuthzAction::QuizManageCollaborators
            || action == AuthzAction::QuizJoinByCode || action == AuthzAction::QuizDeleteManaged
            || action == AuthzAction::UserListAdmin || action
            == AuthzAction::UserListCollaboratorCandidates || action
            == AuthzAction::UserManageAssistants),
{
}

/// An assistant may do exactly this: create, list and read courses, manage
/// question banks, create and manage quizzes and their collaborators, and
/// list collaborator candidates.
pub proof fn lemma_assistant_permissions(action: AuthzAction)
    ensures
        role_allows(UserRole::Assistant, action) <==> (action == AuthzAction::CourseCreate
            || action == AuthzAction::CourseList || action == AuthzAction::CourseRead || action
            == AuthzAction::BankCreate || action == AuthzAction::BankList || action
            == AuthzAction::BankRead || action == AuthzAction::BankUpdate || action
            == AuthzAction::BankDelete || action == AuthzAction::QuizCreate || action
            == AuthzAction::QuizListManaged || action == AuthzAction::QuizReadManaged || action
            == AuthzAction::QuizUpdateManaged || action
            == AuthzAction::UserListCollaboratorCandidates || action
            == AuthzAction::QuizManageCollaborators || action == AuthzAction::QuizDeleteManaged),
{
}

/// Staff create quizzes: admins, func users and assistants may, students
/// may not.
pub proof fn lemma_staff_create_quizzes(role: UserRole)
    ensures
        role_allows(role, AuthzAction::QuizCreate) <==> role != UserRole::Student,
{
}

} // verus!
