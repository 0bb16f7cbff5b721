use quiz_server::banks::entity::QuestionBankQuestion;
use quiz_server::courses::entity::Course;
use quiz_server::quizzes::dtos::{
    validate_create_schema_at, validate_quiz_mode, validate_start_time, validate_start_time_at,
    CertaintyRow, CertaintyScoreDto, CertaintyScoreFailure, CertaintyTableDto, CreateQuizDto,
    CreateQuizFailure, QuizModeFailure, StartTimeFailure,
};
use quiz_server::quizzes::entity::{CertaintyLevel, CertaintyScore, CertaintyTable, Quiz, QuizKind};
use quiz_server::quizzes::errors::QuizError;
use quiz_server::quizzes::services::{
    JoinCodeDecision, QuizCodeGenerator, QuizPolicy, QuizService, JOIN_CODE_LENGTH,
    JOIN_CODE_MAX_ATTEMPTS,
};
use quiz_server::quizzes::views::{JoinQuizPreviewView, QuizView};
use quiz_server::users::{User, UserRole};

// 2030-01-01T00:00:00Z
const START_2030: i64 = 1_893_456_000_000_000;
const NOW: i64 = 1_700_000_000_000_000;
const COURSE: u128 = 0xC0;

fn user(id: u128, role: UserRole) -> User {
    User {
        id,
        username: format!("u{id}"),
        email: format!("u{id}@example.org"),
        name: format!("User {id}"),
        role,
    }
}

fn table() -> CertaintyTableDto {
    CertaintyTableDto {
        low: CertaintyScoreDto { correct: 1, incorrect: 0 },
        medium: CertaintyScoreDto { correct: 2, incorrect: -1 },
        high: CertaintyScoreDto { correct: 3, incorrect: -2 },
    }
}

fn dto(kind: QuizKind, config: Option<CertaintyTableDto>) -> CreateQuizDto {
    CreateQuizDto {
        course_id: COURSE,
        title: "Midterm".to_string(),
        kind,
        starts_at: "2030-01-01T00:00:00Z".to_string(),
        attempt_duration_minutes: 60,
        question_count: 2,
        bank_ids: vec![1],
        certainty_config: config,
    }
}

fn question(id: u128) -> QuestionBankQuestion {
    QuestionBankQuestion {
        id,
        prompt: format!("Q{id}"),
        options: vec!["a".to_string(), "b".to_string()],
        answer_index: 0,
        images: vec![],
    }
}

fn quiz(closed_at: Option<i64>) -> Quiz {
    Quiz {
        id: 0x51,
        course_id: COURSE,
        snapshot_id: 0x52,
        title: "Midterm".to_string(),
        kind: QuizKind::Traditional,
        join_code: "ABCD1234".to_string(),
        question_count: 2,
        certainty_table: None,
        attempt_duration_minutes: 60,
        starts_at: START_2030,
        closed_at,
        created_at: NOW,
        deleted_at: None,
    }
}

fn course(id: u128, name: &str) -> Course {
    Course { id, name: name.to_string(), code: "C1".to_string(), year: 2024, deleted_at: None }
}

fn service() -> QuizService {
    QuizService { policy: QuizPolicy, codegen: QuizCodeGenerator }
}

#[test]
fn certainty_rows_are_checked() {
    assert!(CertaintyScoreDto { correct: 0, incorrect: 0 }.validate().is_ok());
    assert!(CertaintyScoreDto { correct: 100, incorrect: -100 }.validate().is_ok());
    assert_eq!(
        CertaintyScoreDto { correct: 101, incorrect: 1 }.validate().unwrap_err(),
        vec![CertaintyScoreFailure::Correct, CertaintyScoreFailure::Incorrect]
    );
    let mut t = table();
    t.medium.incorrect = -101;
    t.high.correct = -1;
    assert_eq!(
        t.validate().unwrap_err(),
        vec![
            (CertaintyRow::Medium, CertaintyScoreFailure::Incorrect),
            (CertaintyRow::High, CertaintyScoreFailure::Correct)
        ]
    );
    assert!(table().validate().is_ok());
}

#[test]
fn start_time_must_be_rfc3339_and_not_past() {
    assert_eq!(validate_start_time_at("2030-01-01T00:00:00Z", NOW), Ok(()));
    assert_eq!(validate_start_time_at("2030-01-01T00:00:00Z", START_2030), Ok(()));
    assert_eq!(
        validate_start_time_at("2030-01-01T00:00:00Z", START_2030 + 1),
        Err(StartTimeFailure::InPast)
    );
    assert_eq!(
        validate_start_time_at("2030-01-01T01:00:00+01:00", START_2030 + 1),
        Err(StartTimeFailure::InPast)
    );
    assert_eq!(validate_start_time_at("2030-01-01 00:00", NOW), Err(StartTimeFailure::InvalidFormat));
    assert_eq!(validate_start_time_at("", NOW), Err(StartTimeFailure::InvalidFormat));
    assert_eq!(validate_start_time("2001-01-01T00:00:00Z"), Err(StartTimeFailure::InPast));
    assert_eq!(validate_start_time("2999-01-01T00:00:00Z"), Ok(()));
}

#[test]
fn mode_needs_table_exactly_for_certainty() {
    assert_eq!(validate_quiz_mode(&dto(QuizKind::Certainty, Some(table()))), Ok(()));
    assert_eq!(validate_quiz_mode(&dto(QuizKind::Traditional, None)), Ok(()));
    assert_eq!(
        validate_quiz_mode(&dto(QuizKind::Certainty, None)),
        Err(QuizModeFailure::CertaintyConfigRequired)
    );
    assert_eq!(
        validate_quiz_mode(&dto(QuizKind::Traditional, Some(table()))),
        Err(QuizModeFailure::CertaintyConfigNotAllowed)
    );
}

#[test]
fn schema_checks_time_before_mode() {
    let mut d = dto(QuizKind::Certainty, None);
    assert_eq!(validate_create_schema_at(&d, NOW), Some(CreateQuizFailure::CertaintyConfigRequired));
    d.starts_at = "yesterday".to_string();
    assert_eq!(validate_create_schema_at(&d, NOW), Some(CreateQuizFailure::InvalidStartTimeFormat));
    d.starts_at = "2020-01-01T00:00:00Z".to_string();
    assert_eq!(validate_create_schema_at(&d, NOW), Some(CreateQuizFailure::StartTimeInPast));
    assert_eq!(validate_create_schema_at(&dto(QuizKind::Traditional, None), NOW), None);
}

#[test]
fn create_quiz_dto_reports_every_rule() {
    assert!(dto(QuizKind::Traditional, None).validate_at(NOW).is_ok());
    let mut t = table();
    t.low.correct = 200;
    let d = CreateQuizDto {
        course_id: COURSE,
        title: String::new(),
        kind: QuizKind::Traditional,
        starts_at: "2030-01-01T00:00:00Z".to_string(),
        attempt_duration_minutes: 0,
        question_count: 101,
        bank_ids: vec![],
        certainty_config: Some(t),
    };
    assert_eq!(
        d.validate_at(NOW).unwrap_err(),
        vec![
            CreateQuizFailure::Title,
            CreateQuizFailure::AttemptDurationMinutes,
            CreateQuizFailure::QuestionCount,
            CreateQuizFailure::BankIds,
            CreateQuizFailure::CertaintyConfig(CertaintyRow::Low, CertaintyScoreFailure::Correct),
            CreateQuizFailure::CertaintyConfigNotAllowed,
        ]
    );
    let mut d = dto(QuizKind::Traditional, None);
    d.attempt_duration_minutes = 241;
    assert_eq!(d.validate().unwrap_err(), vec![CreateQuizFailure::AttemptDurationMinutes]);
}

#[test]
fn certainty_table_from_request() {
    let t = CertaintyTable::from(table());
    assert_eq!(t.low, CertaintyScore { correct: 1, incorrect: 0 });
    assert_eq!(t.score_for(CertaintyLevel::Medium), CertaintyScore { correct: 2, incorrect: -1 });
    assert_eq!(t.score_for(CertaintyLevel::High), CertaintyScore { correct: 3, incorrect: -2 });
    assert_eq!(CertaintyScore::from(CertaintyScoreDto { correct: 5, incorrect: -5 }), CertaintyScore { correct: 5, incorrect: -5 });
}

#[test]
fn create_policy_and_managed_quiz() {
    let p = QuizPolicy;
    assert_eq!(p.check_can_create_quiz(&user(1, UserRole::Admin), false).ok(), Some(true));
    assert!(p.check_can_create_quiz(&user(1, UserRole::Func), true).is_ok());
    assert!(matches!(p.check_can_create_quiz(&user(1, UserRole::Func), false), Err(QuizError::Forbidden)));
    match p.require_managed_quiz(&user(1, UserRole::Func), 0x51, None, true) {
        Err(QuizError::NotFound(s)) => assert_eq!(s, "00000000-0000-0000-0000-000000000051"),
        _ => panic!("expected NotFound"),
    }
    assert!(matches!(
        p.require_managed_quiz(&user(1, UserRole::Assistant), 0x51, Some(quiz(None)), false),
        Err(QuizError::Forbidden)
    ));
    assert!(p.require_managed_quiz(&user(1, UserRole::Admin), 0x51, Some(quiz(None)), false).is_ok());
}

#[test]
fn create_at_builds_the_quiz() {
    let s = service();
    let qs = vec![question(1), question(2)];
    let q = s
        .create_at(
            &user(1, UserRole::Func),
            dto(QuizKind::Certainty, Some(table())),
            true,
            true,
            &qs,
            "JOIN1234".to_string(),
            0x61,
            0x62,
            NOW,
        )
        .ok()
        .unwrap();
    assert_eq!(q.id, 0x61);
    assert_eq!(q.snapshot_id, 0x62);
    assert_eq!(q.course_id, COURSE);
    assert_eq!(q.join_code, "JOIN1234");
    assert_eq!(q.starts_at, START_2030);
    assert_eq!(q.created_at, NOW);
    assert_eq!(q.certainty_table, Some(CertaintyTable::from(table())));
    assert!(q.closed_at.is_none());
}

#[test]
fn create_refuses_bad_requests() {
    let s = service();
    let qs = vec![question(1)];
    let u = user(1, UserRole::Func);
    let d = dto(QuizKind::Traditional, None);
    assert!(matches!(
        s.create(&user(1, UserRole::Assistant), d.clone(), false, true, &qs, "X".to_string()),
        Err(QuizError::Forbidden)
    ));
    assert!(matches!(
        s.create(&u, d.clone(), true, false, &qs, "X".to_string()),
        Err(QuizError::InvalidBanksForCourse)
    ));
    assert!(matches!(
        s.create(&u, d.clone(), true, true, &qs, "X".to_string()),
        Err(QuizError::InvalidQuestionCount)
    ));
    let mut bad_time = d;
    bad_time.starts_at = "soon".to_string();
    assert!(matches!(
        s.create(&u, bad_time, true, true, &vec![question(1), question(2)], "X".to_string()),
        Err(QuizError::InvalidStartTime)
    ));
}

#[test]
fn join_codes_have_eight_allowed_characters() {
    let g = QuizCodeGenerator;
    for _ in 0..20 {
        let c = g.generate_join_code_candidate();
        assert_eq!(c.chars().count(), JOIN_CODE_LENGTH);
        assert!(c.chars().all(|ch| ch.is_ascii_uppercase() || ch.is_ascii_digit()));
        let m = QuizService::generate_join_code_candidate();
        assert_eq!(m.len(), 8);
        assert!(m.chars().all(|ch| ch.is_ascii_alphanumeric()));
    }
}

#[test]
fn join_code_draws_stop_after_ten() {
    let g = QuizCodeGenerator;
    assert_eq!(JOIN_CODE_MAX_ATTEMPTS, 10);
    assert!(matches!(g.generate_unique_join_code(1, "A".to_string(), false), JoinCodeDecision::Accept(c) if c == "A"));
    assert!(matches!(g.generate_unique_join_code(9, "A".to_string(), true), JoinCodeDecision::Retry));
    assert!(matches!(
        g.generate_unique_join_code(10, "A".to_string(), true),
        JoinCodeDecision::Exhausted(QuizError::InvalidCode)
    ));
}

#[test]
fn managed_list_pairs_quizzes_with_their_courses() {
    let s = service();
    let mut other = quiz(None);
    other.course_id = 0xDEAD;
    let views = s.list_managed_by_user(vec![quiz(None), other], &vec![course(COURSE, "Algebra")]);
    assert_eq!(views.len(), 1);
    assert_eq!(views[0].course.name, "Algebra");
    assert_eq!(views[0].join_code, "ABCD1234");
    let ids = s.managed_course_ids(&vec![quiz(None), quiz(None), {
        let mut q = quiz(None);
        q.course_id = 7;
        q
    }]);
    assert_eq!(ids.len(), 2);
    assert!(ids.contains(&COURSE) && ids.contains(&7));
}

#[test]
fn get_one_needs_access_and_course() {
    let s = service();
    let u = user(1, UserRole::Func);
    let v: QuizView = s.get_one(&u, 0x51, Some(quiz(None)), true, Some(course(COURSE, "Algebra"))).ok().unwrap();
    assert_eq!(v.id, 0x51);
    assert_eq!(v.course.id, COURSE);
    assert!(matches!(s.get_one(&u, 0x51, Some(quiz(None)), false, None), Err(QuizError::Forbidden)));
    assert!(matches!(s.get_one(&u, 0x51, Some(quiz(None)), true, None), Err(QuizError::NotFound(_))));
}

#[test]
fn join_preview_hides_closed_quizzes() {
    let s = service();
    let p: JoinQuizPreviewView = s.get_join_preview("ABCD1234", Some(quiz(None))).ok().unwrap();
    assert_eq!(p.quiz_id, 0x51);
    assert_eq!(p.title, "Midterm");
    assert!(matches!(s.get_join_preview("ABCD1234", Some(quiz(Some(NOW)))), Err(QuizError::Closed)));
    match s.get_join_preview("NOPE", None) {
        Err(QuizError::NotFound(c)) => assert_eq!(c, "NOPE"),
        _ => panic!("expected NotFound"),
    }
    assert_eq!(s.resolve_by_code_for_results("ABCD1234", Some(quiz(Some(NOW)))).ok(), Some(0x51));
}

#[test]
fn result_by_code_needs_membership() {
    let s = service();
    assert_eq!(s.get_my_result_by_join_code(&user(2, UserRole::Student), "C", Some(quiz(None)), true).ok(), Some(0x51));
    assert_eq!(s.get_my_result_by_join_code(&user(2, UserRole::Admin), "C", Some(quiz(None)), false).ok(), Some(0x51));
    assert!(matches!(
        s.get_my_result_by_join_code(&user(2, UserRole::Student), "C", Some(quiz(None)), false),
        Err(QuizError::Forbidden)
    ));
}

#[test]
fn delete_quiz_and_outcome() {
    let s = service();
    assert_eq!(s.delete_quiz(&user(1, UserRole::Func), 0x51, Some(quiz(None)), true).ok(), Some(0x51));
    assert!(s.deletion_outcome(0x51, true).is_ok());
    assert!(matches!(s.deletion_outcome(0x51, false), Err(QuizError::NotFound(_))));
}

#[test]
fn collaborators() {
    let s = service();
    let owner = 10;
    let found = vec![None, Some(user(11, UserRole::Assistant))];
    assert_eq!(s.validate_collaborators(&[owner, 11], owner, &found).is_ok(), true);
    let found = vec![Some(user(12, UserRole::Student))];
    assert!(matches!(s.validate_collaborators(&[12], owner, &found), Err(QuizError::InvalidCollaboratorRole)));
    assert!(matches!(s.validate_collaborators(&[13], owner, &vec![None]), Err(QuizError::CollaboratorNotFound)));
    assert_eq!(s.collaborators_to_add(&[10, 11, 10, 12], owner), vec![11, 12]);
    assert_eq!(s.add_collaborator(owner, owner, false).ok(), Some(false));
    assert!(matches!(s.add_collaborator(11, owner, true), Err(QuizError::CollaboratorAlreadyExists)));
    assert_eq!(s.add_collaborator(11, owner, false).ok(), Some(true));
    assert!(s.remove_collaborator(true).is_ok());
    assert!(matches!(s.remove_collaborator(false), Err(QuizError::CollaboratorNotFound)));
    let users = vec![user(10, UserRole::Func), user(11, UserRole::Assistant)];
    assert_eq!(s.list_collaborators(&user(10, UserRole::Func), owner, users.clone()).len(), 2);
    let listed = s.list_collaborators(&user(11, UserRole::Assistant), owner, users);
    assert_eq!(listed.len(), 1);
    assert_eq!(listed[0].id, 11);
}

#[test]
fn quiz_key_name_and_views() {
    assert_eq!(Quiz::key_name(), "quiz");
    let v = QuizView::from((quiz(None), course(COURSE, "Algebra")));
    assert_eq!(v.title, "Midterm");
    let p = JoinQuizPreviewView::from(&quiz(None));
    assert_eq!(p.starts_at, START_2030);
}

#[test]
fn create_request_check_gives_the_start_instant() {
    let s = service();
    let qs = vec![question(1), question(2)];
    let u = user(1, UserRole::Func);
    let d = dto(QuizKind::Traditional, None);
    assert_eq!(s.check_create_request(&u, &d, true, true, &qs).ok(), Some(START_2030));
    assert!(matches!(
        s.check_create_request(&u, &d, false, true, &qs),
        Err(QuizError::Forbidden)
    ));
    assert!(matches!(
        s.check_create_request(&u, &d, true, true, &vec![question(1)]),
        Err(QuizError::InvalidQuestionCount)
    ));
}

#[test]
fn create_succeeds_with_the_requested_fields() {
    let s = service();
    let qs = vec![question(1), question(2)];
    let q = s
        .create(&user(1, UserRole::Admin), dto(QuizKind::Traditional, None), false, true, &qs, "JOIN1234".to_string())
        .ok()
        .unwrap();
    assert_eq!(q.title, "Midterm");
    assert_eq!(q.kind, QuizKind::Traditional);
    assert_eq!(q.question_count, 2);
    assert_eq!(q.attempt_duration_minutes, 60);
    assert_eq!(q.starts_at, START_2030);
    assert_eq!(q.course_id, COURSE);
    assert_eq!(q.join_code, "JOIN1234");
    assert!(q.closed_at.is_none());
    assert!(q.deleted_at.is_none());
    assert!(q.certainty_table.is_none());
    assert_ne!(q.id, q.snapshot_id);
}
