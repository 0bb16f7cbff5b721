use quiz_server::courses::dtos::{AddCourseMemberDto, CourseInputFailure, CreateCourseDto};
use quiz_server::courses::entity::{Course, CourseMember};
use quiz_server::courses::errors::CoursesError;
use quiz_server::courses::services::{CoursePolicy, CoursesService};
use quiz_server::courses::views::{CourseMemberView, CourseView};
use quiz_server::users::{User, UserRole};

const COURSE: u128 = 0x0000_0000_0000_4000_8000_0000_0000_0001;

fn user(id: u128, role: UserRole) -> User {
    User {
        id,
        username: format!("u{id}"),
        email: format!("u{id}@example.org"),
        name: format!("User {id}"),
        role,
    }
}

fn course() -> Course {
    Course {
        id: COURSE,
        name: "Algebra".to_string(),
        code: "MAT101".to_string(),
        year: 2024,
        deleted_at: None,
    }
}

fn service() -> CoursesService {
    CoursesService { policy: CoursePolicy }
}

#[test]
fn create_course_dto_accepts_valid_input() {
    let dto = CreateCourseDto { name: "Álgebra".to_string(), code: "MA".to_string(), year: 2000 };
    assert!(dto.validate().is_ok());
    let dto = CreateCourseDto { name: "x".repeat(120), code: "y".repeat(32), year: 2100 };
    assert!(dto.validate().is_ok());
}

#[test]
fn create_course_dto_reports_every_broken_rule() {
    let dto = CreateCourseDto { name: String::new(), code: "M".to_string(), year: 1999 };
    assert_eq!(
        dto.validate().unwrap_err(),
        vec![CourseInputFailure::Name, CourseInputFailure::Code, CourseInputFailure::Year]
    );
    let dto = CreateCourseDto { name: "x".repeat(121), code: "y".repeat(33), year: 2101 };
    assert_eq!(dto.validate().unwrap_err().len(), 3);
    let dto = CreateCourseDto { name: "ñ".repeat(120), code: "MAT".to_string(), year: 2101 };
    assert_eq!(dto.validate().unwrap_err(), vec![CourseInputFailure::Year]);
}

#[test]
fn accessible_course_needs_existence_and_membership() {
    let p = CoursePolicy;
    let u = user(1, UserRole::Assistant);
    match p.require_accessible_course(&u, COURSE, None, true) {
        Err(CoursesError::NotFound(s)) => assert_eq!(s, "00000000-0000-4000-8000-000000000001"),
        _ => panic!("expected NotFound"),
    }
    assert!(matches!(
        p.require_accessible_course(&u, COURSE, Some(course()), false),
        Err(CoursesError::Forbidden)
    ));
    let c = p.require_accessible_course(&u, COURSE, Some(course()), true).ok().unwrap();
    assert_eq!(c.code, "MAT101");
}

#[test]
fn managing_members_needs_func_membership() {
    let p = CoursePolicy;
    let u = user(1, UserRole::Assistant);
    assert!(matches!(
        p.require_func_member(&u, COURSE, Some(course()), true, false),
        Err(CoursesError::OnlyFuncCanManageMembers)
    ));
    assert!(matches!(
        p.require_func_member(&u, COURSE, Some(course()), false, true),
        Err(CoursesError::Forbidden)
    ));
    assert!(p.require_func_member(&u, COURSE, Some(course()), true, true).is_ok());
}

#[test]
fn create_course_makes_the_creator_a_member() {
    let s = service();
    let u = user(42, UserRole::Func);
    let dto = CreateCourseDto { name: "Algebra".to_string(), code: "MAT101".to_string(), year: 2024 };
    let (c, m) = s.create_with_ids(&u, dto, false, 10, 11).ok().unwrap();
    assert_eq!(c.id, 10);
    assert_eq!(c.name, "Algebra");
    assert_eq!(c.code, "MAT101");
    assert_eq!(c.year, 2024);
    assert!(c.deleted_at.is_none());
    assert_eq!(m, CourseMember { id: 11, course_id: 10, user_id: 42, role: UserRole::Func });
}

#[test]
fn create_course_refuses_students_and_taken_codes() {
    let s = service();
    let dto = CreateCourseDto { name: "A".to_string(), code: "AB".to_string(), year: 2024 };
    assert!(matches!(
        s.create(&user(1, UserRole::Student), dto.clone(), false),
        Err(CoursesError::Forbidden)
    ));
    assert!(matches!(
        s.create(&user(1, UserRole::Admin), dto.clone(), false),
        Err(CoursesError::Forbidden)
    ));
    assert!(matches!(
        s.create(&user(1, UserRole::Assistant), dto.clone(), true),
        Err(CoursesError::CodeAlreadyExists)
    ));
    let (c, m) = s.create(&user(1, UserRole::Assistant), dto, false).ok().unwrap();
    assert_eq!(m.course_id, c.id);
    assert_eq!(m.role, UserRole::Assistant);
}

#[test]
fn add_member_checks_target() {
    let s = service();
    let dto = AddCourseMemberDto { user_id: 5 };
    assert!(matches!(s.add_member(COURSE, dto, None, false), Err(CoursesError::MemberNotFound)));
    assert!(matches!(
        s.add_member(COURSE, dto, Some(user(5, UserRole::Student)), false),
        Err(CoursesError::InvalidMemberRole)
    ));
    assert!(matches!(
        s.add_member(COURSE, dto, Some(user(5, UserRole::Assistant)), true),
        Err(CoursesError::MemberAlreadyExists)
    ));
    let m = s.add_member_with_id(COURSE, dto, Some(user(5, UserRole::Assistant)), false, 77).ok().unwrap();
    assert_eq!(m, CourseMember { id: 77, course_id: COURSE, user_id: 5, role: UserRole::Assistant });
}

#[test]
fn last_func_member_cannot_leave() {
    let s = service();
    let func = CourseMember { id: 1, course_id: COURSE, user_id: 2, role: UserRole::Func };
    assert!(matches!(
        s.remove_course_member(Some(func), 1),
        Err(CoursesError::CannotRemoveLastFuncMember)
    ));
    assert!(matches!(
        s.remove_course_member(Some(func), 0),
        Err(CoursesError::CannotRemoveLastFuncMember)
    ));
    assert_eq!(s.remove_course_member(Some(func), 2).ok(), Some(func));
    let assistant = CourseMember { id: 3, course_id: COURSE, user_id: 4, role: UserRole::Assistant };
    assert_eq!(s.remove_course_member(Some(assistant), 1).ok(), Some(assistant));
    assert!(matches!(s.remove_course_member(None, 5), Err(CoursesError::MemberNotFound)));
}

#[test]
fn outcomes_of_deletions() {
    let s = service();
    assert!(s.soft_delete_outcome(COURSE, true).is_ok());
    match s.soft_delete_outcome(COURSE, false) {
        Err(CoursesError::NotFound(t)) => assert_eq!(t, "00000000-0000-4000-8000-000000000001"),
        _ => panic!("expected NotFound"),
    }
    assert!(s.removal_outcome(true).is_ok());
    assert!(matches!(s.removal_outcome(false), Err(CoursesError::MemberNotFound)));
}

#[test]
fn course_view_copies_course_and_members() {
    let members = vec![
        CourseMemberView { user_id: 1, username: "a".to_string(), name: "A".to_string(), role: UserRole::Func },
        CourseMemberView { user_id: 2, username: "b".to_string(), name: "B".to_string(), role: UserRole::Assistant },
    ];
    let v = CourseView::from(&course(), &members);
    assert_eq!(v.id, COURSE);
    assert_eq!(v.name, "Algebra");
    assert_eq!(v.code, "MAT101");
    assert_eq!(v.year, 2024);
    assert_eq!(v.members.len(), 2);
    assert_eq!(v.members[1].username, "b");
    assert_eq!(v.members[0].role, UserRole::Func);
}

#[test]
fn course_key_name() {
    assert_eq!(Course::key_name(), "course");
}
