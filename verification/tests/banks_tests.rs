use quiz_server::banks::dtos::{
    validate_question, validate_update_has_fields, CreateQuestionBankDto, QuestionBankInputFailure,
    QuestionInput, QuestionInputFailure, UpdateQuestionBankDto,
};
use quiz_server::banks::entity::{QuestionBank, QuestionBankQuestion};
use quiz_server::banks::errors::QuestionBankError;
use quiz_server::banks::services::{QuestionBankPolicy, QuestionBankService, SnapshotSync};
use quiz_server::banks::views::{QuestionBankQuestionView, QuestionBankView, QuestionView};
use quiz_server::quizzes::entity::{Quiz, QuizKind};
use quiz_server::users::{User, UserRole};

const NOW: i64 = 1_700_000_000_000_000;
const COURSE: u128 = 0xAB;

fn input(prompt: &str, options: usize, answer: usize, images: usize) -> QuestionInput {
    QuestionInput {
        prompt: prompt.to_string(),
        options: (0..options).map(|i| format!("option {i}")).collect(),
        answer_index: answer,
        images: (0..images).map(|i| format!("img{i}.png")).collect(),
    }
}

fn staff() -> User {
    User {
        id: 3,
        username: "staff".to_string(),
        email: "staff@example.org".to_string(),
        name: "Staff".to_string(),
        role: UserRole::Assistant,
    }
}

fn service() -> QuestionBankService {
    QuestionBankService { policy: QuestionBankPolicy }
}

fn quiz(starts_at: i64, closed_at: Option<i64>, question_count: i16) -> Quiz {
    Quiz {
        id: 1,
        course_id: COURSE,
        snapshot_id: 2,
        title: "Quiz".to_string(),
        kind: QuizKind::Traditional,
        join_code: "ABCDEFGH".to_string(),
        question_count,
        certainty_table: None,
        attempt_duration_minutes: 30,
        starts_at,
        closed_at,
        created_at: NOW - 1,
        deleted_at: None,
    }
}

fn bank() -> QuestionBank {
    QuestionBank {
        id: 0x10,
        course_id: COURSE,
        name: "Bank".to_string(),
        questions: vec![QuestionBankQuestion {
            id: 0x20,
            prompt: "2+2?".to_string(),
            options: vec!["3".to_string(), "4".to_string()],
            answer_index: 1,
            images: vec![],
        }],
        created_at: NOW,
        deleted_at: None,
    }
}

#[test]
fn question_input_rules() {
    assert!(input("What?", 2, 1, 5).validate().is_ok());
    assert_eq!(
        input("", 1, 3, 6).validate().unwrap_err(),
        vec![
            QuestionInputFailure::Prompt,
            QuestionInputFailure::Options,
            QuestionInputFailure::Images,
            QuestionInputFailure::InvalidAnswerIndex
        ]
    );
    assert_eq!(
        input(&"p".repeat(1001), 6, 5, 0).validate().unwrap_err(),
        vec![QuestionInputFailure::Prompt, QuestionInputFailure::Options]
    );
    assert!(input(&"p".repeat(1000), 5, 4, 0).validate().is_ok());
}

#[test]
fn validate_question_names_an_option() {
    assert!(validate_question(&input("q", 3, 2, 0)).is_ok());
    assert_eq!(
        validate_question(&input("q", 3, 3, 0)),
        Err(QuestionInputFailure::InvalidAnswerIndex)
    );
}

#[test]
fn create_bank_rules_tag_question_positions() {
    let dto = CreateQuestionBankDto {
        course_id: COURSE,
        name: String::new(),
        questions: vec![input("ok", 2, 0, 0), input("", 2, 2, 0)],
    };
    assert_eq!(
        dto.validate().unwrap_err(),
        vec![
            QuestionBankInputFailure::Name,
            QuestionBankInputFailure::Question(1, QuestionInputFailure::Prompt),
            QuestionBankInputFailure::Question(1, QuestionInputFailure::InvalidAnswerIndex),
        ]
    );
    let dto = CreateQuestionBankDto { course_id: COURSE, name: "B".to_string(), questions: vec![] };
    assert_eq!(dto.validate().unwrap_err(), vec![QuestionBankInputFailure::Questions]);
    let dto = CreateQuestionBankDto {
        course_id: COURSE,
        name: "b".repeat(120),
        questions: vec![input("ok", 2, 0, 0)],
    };
    assert!(dto.validate().is_ok());
}

#[test]
fn update_bank_needs_a_field() {
    let empty = UpdateQuestionBankDto { name: None, questions: None };
    assert_eq!(validate_update_has_fields(&empty), Err(QuestionBankInputFailure::EmptyUpdate));
    assert_eq!(empty.validate().unwrap_err(), vec![QuestionBankInputFailure::EmptyUpdate]);
    let named = UpdateQuestionBankDto { name: Some("N".to_string()), questions: None };
    assert!(named.validate().is_ok());
    let bad = UpdateQuestionBankDto { name: Some("n".repeat(121)), questions: Some(vec![]) };
    assert_eq!(
        bad.validate().unwrap_err(),
        vec![QuestionBankInputFailure::Name, QuestionBankInputFailure::Questions]
    );
}

#[test]
fn stored_question_copies_the_request() {
    let q = QuestionBankQuestion::from_input(&input("Why?", 3, 2, 1), 99);
    assert_eq!(q.id, 99);
    assert_eq!(q.prompt, "Why?");
    assert_eq!(q.options, vec!["option 0", "option 1", "option 2"]);
    assert_eq!(q.answer_index, 2);
    assert_eq!(q.images, vec!["img0.png"]);
    let a = QuestionBankQuestion::from(&input("Why?", 3, 2, 1));
    let b = QuestionBankQuestion::from(&input("Why?", 3, 2, 1));
    assert_ne!(a.id, b.id);
}

#[test]
fn views_of_questions_and_banks() {
    let b = bank();
    let v = QuestionView::from(&b.questions[0]);
    assert_eq!(v.id, 0x20);
    assert_eq!(v.prompt, "2+2?");
    assert_eq!(v.options, vec!["3", "4"]);
    let qv = QuestionBankQuestionView::from(b.questions[0].clone());
    assert_eq!(qv.answer_index, 1);
    let bv = QuestionBankView::from(b);
    assert_eq!(bv.id, "00000000-0000-0000-0000-000000000010");
    assert_eq!(bv.course_id, COURSE);
    assert_eq!(bv.questions.len(), 1);
    assert_eq!(bv.questions[0].prompt, "2+2?");
}

#[test]
fn course_and_bank_access() {
    let p = QuestionBankPolicy;
    match p.require_accessible_course(&staff(), COURSE, false, true) {
        Err(QuestionBankError::NotFound(s)) => assert_eq!(s, "00000000-0000-0000-0000-0000000000ab"),
        _ => panic!("expected NotFound"),
    }
    assert!(matches!(
        p.require_accessible_course(&staff(), COURSE, true, false),
        Err(QuestionBankError::Forbidden)
    ));
    assert!(p.require_accessible_course(&staff(), COURSE, true, true).is_ok());
    assert!(matches!(
        p.require_accessible_bank(&staff(), 0x10, None, true, true),
        Err(QuestionBankError::NotFound(_))
    ));
    let b = p.require_accessible_bank(&staff(), 0x10, Some(bank()), true, true).ok().unwrap();
    assert_eq!(b.name, "Bank");
}

#[test]
fn create_bank_at_builds_the_bank() {
    let dto = CreateQuestionBankDto {
        course_id: COURSE,
        name: "New".to_string(),
        questions: vec![input("a", 2, 0, 0), input("b", 3, 2, 0)],
    };
    let b = service().create_at(&staff(), dto.clone(), true, true, 0x77, NOW).ok().unwrap();
    assert_eq!(b.id, 0x77);
    assert_eq!(b.course_id, COURSE);
    assert_eq!(b.name, "New");
    assert_eq!(b.created_at, NOW);
    assert_eq!(b.questions.len(), 2);
    assert_eq!(b.questions[1].answer_index, 2);
    assert!(matches!(
        service().create(&staff(), dto, true, false),
        Err(QuestionBankError::Forbidden)
    ));
}

#[test]
fn update_bank_replaces_named_fields() {
    let b = service().update(bank(), UpdateQuestionBankDto { name: Some("Renamed".to_string()), questions: None });
    assert_eq!(b.name, "Renamed");
    assert_eq!(b.questions.len(), 1);
    let b = service().update(
        bank(),
        UpdateQuestionBankDto { name: None, questions: Some(vec![input("x", 2, 1, 0), input("y", 2, 0, 0)]) },
    );
    assert_eq!(b.name, "Bank");
    assert_eq!(b.questions.len(), 2);
    assert_eq!(b.questions[0].prompt, "x");
    assert_eq!(b.id, 0x10);
}

#[test]
fn running_quiz_locks_its_banks() {
    let s = service();
    let running = quiz(NOW - 10, None, 1);
    let closed = quiz(NOW - 10, Some(NOW - 5), 1);
    let future = quiz(NOW + 10, None, 1);
    assert!(s.ensure_not_linked_to_running_quiz_at(&[closed.clone(), future.clone()], NOW).is_ok());
    assert!(matches!(
        s.ensure_not_linked_to_running_quiz_at(&[future.clone(), running.clone()], NOW),
        Err(QuestionBankError::LockedByRunningQuiz)
    ));
    let starting_now = quiz(NOW, None, 1);
    assert!(s.ensure_not_linked_to_running_quiz_at(&[starting_now], NOW).is_err());
    let far_future = quiz(4_000_000_000_000_000, None, 1);
    assert!(s.ensure_not_linked_to_running_quiz(&[far_future]).is_ok());
    assert!(s.ensure_not_linked_to_running_quiz(&[running]).is_err());
}

#[test]
fn only_quizzes_not_started_follow_bank_changes() {
    let s = service();
    let qs = [quiz(NOW - 10, None, 1), quiz(NOW + 10, None, 1), quiz(NOW + 10, Some(NOW), 1), quiz(NOW + 20, None, 3)];
    assert_eq!(s.not_started_at(&qs, NOW), vec![1, 3]);
    assert_eq!(s.sync_not_started_snapshot_at(&qs[0], NOW, 5).ok(), Some(SnapshotSync::Skip));
    assert_eq!(s.sync_not_started_snapshot_at(&qs[2], NOW, 5).ok(), Some(SnapshotSync::Skip));
    assert_eq!(s.sync_not_started_snapshot_at(&qs[3], NOW, 3).ok(), Some(SnapshotSync::Update));
    assert!(matches!(
        s.sync_not_started_snapshot_at(&qs[3], NOW, 2),
        Err(QuestionBankError::InvalidQuestionCountAfterBankUpdate)
    ));
}

#[test]
fn outcomes_of_bank_writes() {
    let s = service();
    assert!(s.snapshot_update_outcome(true).is_ok());
    assert!(matches!(s.snapshot_update_outcome(false), Err(QuestionBankError::SnapshotNotFound)));
    assert!(s.soft_delete_outcome(0x10, true).is_ok());
    assert!(matches!(s.soft_delete_outcome(0x10, false), Err(QuestionBankError::NotFound(_))));
    assert!(s.are_banks_in_course(&[1, 2], 2));
    assert!(!s.are_banks_in_course(&[1, 2], 1));
    assert!(!s.are_banks_in_course(&[], 0));
}

#[test]
fn bank_key_name() {
    assert_eq!(QuestionBank::key_name(), "question_bank");
}
