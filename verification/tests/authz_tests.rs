use quiz_server::authz::{AuthzAction, AuthzError, AuthzGuard, AuthzService, GuardRejection};
use quiz_server::users::{User, UserRole};

const ALL_ACTIONS: [AuthzAction; 25] = [
    AuthzAction::CourseList,
    AuthzAction::CourseRead,
    AuthzAction::CourseCreate,
    AuthzAction::CourseDelete,
    AuthzAction::CourseManageMembers,
    AuthzAction::BankList,
    AuthzAction::BankRead,
    AuthzAction::BankCreate,
    AuthzAction::BankUpdate,
    AuthzAction::BankDelete,
    AuthzAction::QuizReadManaged,
    AuthzAction::QuizListManaged,
    AuthzAction::QuizCreate,
    AuthzAction::QuizUpdateManaged,
    AuthzAction::QuizManageCollaborators,
    AuthzAction::QuizJoinByCode,
    AuthzAction::QuizViewAttemptResultByCode,
    AuthzAction::QuizDeleteManaged,
    AuthzAction::AttemptList,
    AuthzAction::AttemptInitialize,
    AuthzAction::AttemptSubmit,
    AuthzAction::AttemptViewResults,
    AuthzAction::UserListAdmin,
    AuthzAction::UserListCollaboratorCandidates,
    AuthzAction::UserManageAssistants,
];

fn user(role: UserRole) -> User {
    User {
        id: 0x0123_4567_89ab_cdef_0123_4567_89ab_cdef,
        username: "jdoe".to_string(),
        email: "jdoe@example.org".to_string(),
        name: "J Doe".to_string(),
        role,
    }
}

#[test]
fn admin_may_do_everything() {
    let s = AuthzService;
    for a in ALL_ACTIONS {
        assert!(s.authorize_role(&UserRole::Admin, a).is_ok());
    }
}

#[test]
fn student_may_only_join() {
    let s = AuthzService;
    for a in ALL_ACTIONS {
        let r = s.authorize_role(&UserRole::Student, a);
        assert_eq!(r.is_ok(), a == AuthzAction::QuizJoinByCode);
    }
}

#[test]
fn assistant_rights_are_within_func_rights() {
    let s = AuthzService;
    for a in ALL_ACTIONS {
        if s.authorize_role(&UserRole::Assistant, a).is_ok() {
            assert!(s.authorize_role(&UserRole::Func, a).is_ok());
        }
    }
}

#[test]
fn func_may_manage_members_but_assistant_may_not() {
    let s = AuthzService;
    assert!(s.authorize_role(&UserRole::Func, AuthzAction::CourseManageMembers).is_ok());
    let r = s.authorize_role(&UserRole::Assistant, AuthzAction::CourseManageMembers);
    assert!(matches!(r, Err(AuthzError::Forbidden(AuthzAction::CourseManageMembers))));
    assert!(s.authorize_role(&UserRole::Func, AuthzAction::UserManageAssistants).is_ok());
    assert!(s.authorize_role(&UserRole::Assistant, AuthzAction::UserManageAssistants).is_err());
}

#[test]
fn attempt_actions_are_admin_only() {
    let s = AuthzService;
    for a in [
        AuthzAction::AttemptList,
        AuthzAction::AttemptInitialize,
        AuthzAction::AttemptSubmit,
        AuthzAction::AttemptViewResults,
        AuthzAction::QuizViewAttemptResultByCode,
    ] {
        assert!(s.authorize_role(&UserRole::Func, a).is_err());
        assert!(s.authorize_role(&UserRole::Assistant, a).is_err());
        assert!(s.authorize_role(&UserRole::Student, a).is_err());
        assert!(s.authorize_role(&UserRole::Admin, a).is_ok());
    }
}

#[test]
fn guard_without_session_is_unauthorized() {
    let g = AuthzGuard { authz: AuthzService };
    let r = g.on_request(AuthzAction::CourseList, None, Some(user(UserRole::Func)));
    assert!(matches!(r, Err(GuardRejection::Unauthorized)));
}

#[test]
fn guard_reports_missing_actor_by_uuid_text() {
    let g = AuthzGuard { authz: AuthzService };
    let r = g.on_request(AuthzAction::CourseList, Some(0x0123_4567_89ab_cdef_0123_4567_89ab_cdef), None);
    match r {
        Err(GuardRejection::Authz(AuthzError::ActorNotFound(s))) => {
            assert_eq!(s, "01234567-89ab-cdef-0123-456789abcdef");
        }
        _ => panic!("expected ActorNotFound"),
    }
}

#[test]
fn guard_passes_allowed_user_and_refuses_others() {
    let g = AuthzGuard { authz: AuthzService };
    let u = user(UserRole::Assistant);
    let r = g.on_request(AuthzAction::BankRead, Some(u.id), Some(u.clone()));
    match r {
        Ok(v) => assert_eq!(v.username, "jdoe"),
        Err(_) => panic!("expected the user"),
    }
    let r = g.on_request(AuthzAction::CourseDelete, Some(u.id), Some(u));
    assert!(matches!(
        r,
        Err(GuardRejection::Authz(AuthzError::Forbidden(AuthzAction::CourseDelete)))
    ));
}
