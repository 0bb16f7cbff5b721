use std::collections::HashMap;

use quiz_server::attempts::dtos::{AttemptSnapshotView, AttemptStatus, SaveAttemptAnswerDto, ValidationFailure};
use quiz_server::attempts::entity::{Attempt, AttemptAnswer};
use quiz_server::attempts::errors::AttemptError;
use quiz_server::attempts::evaluation::{
    shuffled_question_order, AttemptService, EvaluationRecord, StartOutcome,
};
use quiz_server::attempts::grading::{score_fits_check, GradingService};
use quiz_server::attempts::policy::AttemptPolicy;
use quiz_server::attempts::questions::QuestionService;
use quiz_server::attempts::services::AttemptsService;
use quiz_server::banks::entity::QuestionBankQuestion;
use quiz_server::errors::AppError;
use quiz_server::quizzes::entity::{CertaintyLevel, CertaintyScore, CertaintyTable, Quiz, QuizKind};
use quiz_server::quizzes::errors::QuizError;
use quiz_server::support::MICROS_PER_MINUTE;
use quiz_server::users::{User, UserRole};

const NOW: i64 = 1_700_000_000_000_000;
const STUDENT: u128 = 0x5;
const QUIZ: u128 = 0x9;

fn user(id: u128, role: UserRole) -> User {
    User {
        id,
        username: format!("u{id}"),
        email: format!("u{id}@example.org"),
        name: format!("User {id}"),
        role,
    }
}

fn question(id: u128, options: usize, correct: i16) -> QuestionBankQuestion {
    QuestionBankQuestion {
        id,
        prompt: format!("Q{id}"),
        options: (0..options).map(|i| format!("o{i}")).collect(),
        answer_index: correct,
        images: vec![],
    }
}

fn questions() -> Vec<QuestionBankQuestion> {
    vec![question(1, 2, 0), question(2, 3, 2), question(3, 4, 1)]
}

fn table() -> CertaintyTable {
    CertaintyTable {
        low: CertaintyScore { correct: 1, incorrect: 0 },
        medium: CertaintyScore { correct: 2, incorrect: -1 },
        high: CertaintyScore { correct: 3, incorrect: -2 },
    }
}

fn quiz(kind: QuizKind) -> Quiz {
    Quiz {
        id: QUIZ,
        course_id: 0xC,
        snapshot_id: 0xD,
        title: "T".to_string(),
        kind,
        join_code: "CODE1234".to_string(),
        question_count: 3,
        certainty_table: if kind == QuizKind::Certainty { Some(table()) } else { None },
        attempt_duration_minutes: 30,
        starts_at: NOW - 1_000,
        closed_at: None,
        created_at: NOW - 5_000,
        deleted_at: None,
    }
}

fn attempt(submitted_at: Option<i64>) -> Attempt {
    Attempt {
        id: 0xA,
        student_id: STUDENT,
        quiz_id: QUIZ,
        question_order: vec![2, 1, 3],
        score: None,
        started_at: NOW,
        expires_at: NOW + 30 * MICROS_PER_MINUTE,
        submitted_at,
        results_viewed_at: None,
        deleted_at: None,
    }
}

fn answer(question_id: u128, index: i16, level: Option<CertaintyLevel>) -> AttemptAnswer {
    AttemptAnswer { attempt_id: 0xA, question_id, answer_index: index, certainty_level: level }
}

fn by_id() -> HashMap<u128, QuestionBankQuestion> {
    questions().into_iter().map(|q| (q.id, q)).collect()
}

fn attempts_service() -> AttemptsService {
    AttemptsService { questions_service: QuestionService, grading: GradingService }
}

fn evaluation_service() -> AttemptService {
    AttemptService { policy: AttemptPolicy, grading: GradingService }
}

#[test]
fn traditional_grading_counts_last_correct_answers() {
    let g = GradingService;
    let answers = vec![answer(1, 1, None), answer(2, 2, None), answer(1, 0, None)];
    let out = g.grade_attempt(&[2, 1, 3], &by_id(), &answers, QuizKind::Traditional, None);
    assert_eq!(out.score_points, 2);
    assert_eq!(out.score_points_max, 3);
    assert_eq!(out.questions.len(), 3);
    assert_eq!(out.questions[0].question_id, 2);
    assert!(out.questions[0].is_correct);
    assert_eq!(out.questions[1].answer_index, Some(0));
    assert_eq!(out.questions[2].answer_index, None);
    assert!(!out.questions[2].is_correct);
    assert_eq!(out.questions[2].correct_answer_index, 1);
    assert!(out.score_points <= out.score_points_max);
}

#[test]
fn certainty_grading_uses_the_table() {
    let g = GradingService;
    let answers = vec![
        answer(1, 0, Some(CertaintyLevel::High)),
        answer(2, 0, Some(CertaintyLevel::Medium)),
        answer(3, 1, None),
    ];
    let out = g.grade_attempt(&[1, 2, 3], &by_id(), &answers, QuizKind::Certainty, Some(table()));
    assert_eq!(out.score_points, 3 - 1 + 0);
    assert_eq!(out.questions[0].awarded_points, 3);
    assert_eq!(out.questions[1].awarded_points, -1);
    assert_eq!(out.questions[2].awarded_points, 0);
    let out = g.grade_attempt(&[1], &by_id(), &answers, QuizKind::Certainty, None);
    assert_eq!(out.score_points, 1);
}

#[test]
fn unknown_questions_are_skipped_but_counted_in_the_maximum() {
    let g = GradingService;
    let out = g.grade_attempt(&[1, 99], &by_id(), &[answer(1, 0, None)], QuizKind::Traditional, None);
    assert_eq!(out.score_points, 1);
    assert_eq!(out.score_points_max, 2);
    assert_eq!(out.questions.len(), 1);
}

#[test]
fn awarded_points_for_certainty_levels() {
    let g = GradingService;
    assert_eq!(g.awarded_points_for_certainty(true, None, &None), 1);
    assert_eq!(g.awarded_points_for_certainty(false, None, &None), 0);
    assert_eq!(g.awarded_points_for_certainty(true, None, &Some(table())), 0);
    assert_eq!(g.awarded_points_for_certainty(false, Some(CertaintyLevel::High), &Some(table())), -2);
    assert_eq!(g.awarded_points_for_certainty(true, Some(CertaintyLevel::Low), &Some(table())), 1);
}

#[test]
fn score_fits_check_detects_overflow() {
    let big = CertaintyTable {
        low: CertaintyScore { correct: 30_000, incorrect: 0 },
        medium: CertaintyScore { correct: 30_000, incorrect: 0 },
        high: CertaintyScore { correct: 30_000, incorrect: 0 },
    };
    let answers = vec![answer(1, 0, Some(CertaintyLevel::Low)), answer(3, 1, Some(CertaintyLevel::Low))];
    assert!(score_fits_check(&[1], &by_id(), &answers, QuizKind::Certainty, Some(big)));
    assert!(!score_fits_check(&[1, 3], &by_id(), &answers, QuizKind::Certainty, Some(big)));
    assert!(score_fits_check(&[1, 2, 3], &by_id(), &answers, QuizKind::Certainty, Some(table())));
}

#[test]
fn answer_dto_refuses_negative_index() {
    assert_eq!(SaveAttemptAnswerDto { answer_index: 0, certainty_level: None }.validate(), Ok(()));
    assert_eq!(
        SaveAttemptAnswerDto { answer_index: -1, certainty_level: None }.validate(),
        Err(ValidationFailure::NegativeAnswerIndex)
    );
}

#[test]
fn snapshot_view_reports_status() {
    let v = AttemptSnapshotView::from(&attempt(None));
    assert_eq!(v.status, AttemptStatus::InProgress);
    assert_eq!(v.expires_at, NOW + 30 * MICROS_PER_MINUTE);
    assert_eq!(AttemptSnapshotView::from(&attempt(Some(NOW + 1))).status, AttemptStatus::Submitted);
    assert_eq!(Attempt::key_name(), "attempt");
}

#[test]
fn policy_on_submission() {
    let p = AttemptPolicy;
    let s = user(STUDENT, UserRole::Student);
    assert!(p.can_start_attempt(&s).is_ok());
    assert_eq!(p.can_start_attempt(&user(1, UserRole::Func)), Err(AttemptError::Forbidden));
    assert_eq!(p.can_access_attempt(&user(1, UserRole::Student), &attempt(None)), Err(AttemptError::Forbidden));
    let a = attempt(None);
    assert_eq!(p.can_submit_attempt_at(&s, &a, a.expires_at), Ok(()));
    assert_eq!(p.can_submit_attempt_at(&s, &a, a.expires_at + 1), Err(AttemptError::Expired));
    assert_eq!(p.can_submit_attempt_at(&s, &a, a.expires_at + 1_000_000_000), Err(AttemptError::Expired));
    assert_eq!(p.can_submit_attempt_at(&s, &attempt(Some(NOW)), NOW), Err(AttemptError::AlreadySubmitted));
    assert_eq!(p.can_save_answer(&s, &attempt(Some(NOW))), Err(AttemptError::AlreadySubmitted));
}

#[test]
fn questions_service_orders_and_checks() {
    let qsvc = QuestionService;
    let views = qsvc.get_ordered_question_views(questions(), &[3, 1]).ok().unwrap();
    assert_eq!(views.len(), 2);
    assert_eq!(views[0].id, 3);
    assert_eq!(views[1].prompt, "Q1");
    match qsvc.get_ordered_question_views(questions(), &[1, 0x77, 0x88]) {
        Err(QuizError::QuestionNotFound(s)) => assert_eq!(s, "00000000-0000-0000-0000-000000000077"),
        _ => panic!("expected QuestionNotFound"),
    }
    let map = qsvc.get_questions_by_ids(questions(), &[1, 2]).ok().unwrap();
    assert_eq!(map.len(), 3);
    let vmap = qsvc.get_question_views_by_ids(questions(), &[2]).ok().unwrap();
    assert_eq!(vmap.get(&2).unwrap().options.len(), 3);
    assert!(qsvc.ensure_question_belongs_to_attempt(&[1, 2], 2).is_ok());
    assert_eq!(
        qsvc.ensure_question_belongs_to_attempt(&[1, 2], 3),
        Err(AttemptError::QuestionNotInAttempt(3))
    );
    assert!(qsvc.ensure_valid_answer_index(&question(1, 2, 0), 1).is_ok());
    assert_eq!(qsvc.ensure_valid_answer_index(&question(1, 2, 0), 2), Err(AttemptError::InvalidAnswerIndex));
    assert_eq!(qsvc.ensure_valid_answer_index(&question(1, 2, 0), -1), Err(AttemptError::InvalidAnswerIndex));
}

#[test]
fn attempt_questions_are_distinct_quiz_questions() {
    let qsvc = QuestionService;
    let ids = qsvc.get_question_ids_for_attempt(&questions(), 2).ok().unwrap();
    assert_eq!(ids.len(), 2);
    assert_ne!(ids[0], ids[1]);
    assert!(ids.iter().all(|id| [1u128, 2, 3].contains(id)));
    assert!(matches!(
        qsvc.get_question_ids_for_attempt(&questions(), 4),
        Err(QuizError::InvalidQuestionCount)
    ));
    let mut order = shuffled_question_order(&questions());
    order.sort();
    assert_eq!(order, vec![1, 2, 3]);
}

#[test]
fn initialize_attempt_rules() {
    let s = attempts_service();
    let a = s.initialize_attempt_at(Some(quiz(QuizKind::Traditional)), QUIZ, STUDENT, &vec![], &questions(), NOW, 0xA1).ok().unwrap();
    assert_eq!(a.id, 0xA1);
    assert_eq!(a.student_id, STUDENT);
    assert_eq!(a.question_order.len(), 3);
    assert_eq!(a.expires_at, NOW + 30 * MICROS_PER_MINUTE);
    let mut future = quiz(QuizKind::Traditional);
    future.starts_at = NOW + 1;
    assert!(matches!(
        s.initialize_attempt_at(Some(future), QUIZ, STUDENT, &vec![], &questions(), NOW, 1),
        Err(AppError::Attempt(AttemptError::QuizNotStarted))
    ));
    let mut closed = quiz(QuizKind::Traditional);
    closed.closed_at = Some(NOW);
    assert!(matches!(
        s.initialize_attempt_at(Some(closed), QUIZ, STUDENT, &vec![], &questions(), NOW, 1),
        Err(AppError::Attempt(AttemptError::QuizEnded))
    ));
    assert!(matches!(
        s.initialize_attempt_at(Some(quiz(QuizKind::Traditional)), QUIZ, STUDENT, &vec![attempt(None)], &questions(), NOW, 1),
        Err(AppError::Attempt(AttemptError::AlreadyAttempted))
    ));
    assert!(matches!(
        s.initialize_attempt_at(Some(quiz(QuizKind::Traditional)), QUIZ, STUDENT, &vec![], &questions()[..2].to_vec(), NOW, 1),
        Err(AppError::Quiz(QuizError::InvalidQuestionCount))
    ));
    assert!(matches!(
        s.initialize_attempt(None, QUIZ, STUDENT, &vec![], &questions()),
        Err(AppError::Quiz(QuizError::NotFound(_)))
    ));
}

#[test]
fn answerable_until_a_minute_after_expiry() {
    let s = attempts_service();
    let a = attempt(None);
    assert!(s.ensure_attempt_is_answerable_at(&a, a.expires_at + MICROS_PER_MINUTE).is_ok());
    assert_eq!(
        s.ensure_attempt_is_answerable_at(&a, a.expires_at + MICROS_PER_MINUTE + 1),
        Err(AttemptError::Expired)
    );
    assert_eq!(
        s.ensure_attempt_is_answerable_at(&attempt(Some(NOW)), NOW),
        Err(AttemptError::AlreadySubmitted)
    );
}

#[test]
fn save_answer_checks_in_order() {
    let s = attempts_service();
    let dto = SaveAttemptAnswerDto { answer_index: 2, certainty_level: None };
    let r = s.save_answer_at(Some(attempt(None)), 0xA, 2, STUDENT, dto, Some(quiz(QuizKind::Traditional)), questions(), NOW);
    assert_eq!(r.ok(), Some(answer(2, 2, None)));
    let r = s.save_answer_at(Some(attempt(None)), 0xA, 2, 0x99, dto, Some(quiz(QuizKind::Traditional)), questions(), NOW);
    assert!(matches!(r, Err(AppError::Attempt(AttemptError::Forbidden))));
    let r = s.save_answer_at(None, 0xA, 2, STUDENT, dto, Some(quiz(QuizKind::Traditional)), questions(), NOW);
    assert!(matches!(r, Err(AppError::Attempt(AttemptError::NotFound(0xA)))));
    let r = s.save_answer_at(Some(attempt(None)), 0xA, 2, STUDENT, dto, Some(quiz(QuizKind::Certainty)), questions(), NOW);
    assert!(matches!(r, Err(AppError::Attempt(AttemptError::CertaintyLevelRequired))));
    let with_level = SaveAttemptAnswerDto { answer_index: 1, certainty_level: Some(CertaintyLevel::Low) };
    let r = s.save_answer_at(Some(attempt(None)), 0xA, 2, STUDENT, with_level, Some(quiz(QuizKind::Traditional)), questions(), NOW);
    assert!(matches!(r, Err(AppError::Attempt(AttemptError::CertaintyLevelNotAllowed))));
    let r = s.save_answer_at(Some(attempt(None)), 0xA, 7, STUDENT, dto, Some(quiz(QuizKind::Traditional)), questions(), NOW);
    assert!(matches!(r, Err(AppError::Attempt(AttemptError::QuestionNotInAttempt(7)))));
    let bad = SaveAttemptAnswerDto { answer_index: 3, certainty_level: None };
    let r = s.save_answer_at(Some(attempt(None)), 0xA, 2, STUDENT, bad, Some(quiz(QuizKind::Traditional)), questions(), NOW);
    assert!(matches!(r, Err(AppError::Attempt(AttemptError::InvalidAnswerIndex))));
    let r = s.save_answer_at(Some(attempt(Some(NOW))), 0xA, 2, STUDENT, dto, Some(quiz(QuizKind::Traditional)), questions(), NOW);
    assert!(matches!(r, Err(AppError::Attempt(AttemptError::AlreadySubmitted))));
}

#[test]
fn submit_grades_and_stamps_the_attempt() {
    let s = attempts_service();
    let answers = vec![answer(2, 2, None), answer(1, 1, None)];
    let (a, g) = s
        .submit_attempt_at(Some(attempt(None)), 0xA, STUDENT, Some(quiz(QuizKind::Traditional)), questions(), &answers, NOW + 5)
        .ok()
        .unwrap();
    assert_eq!(g.score_points, 1);
    assert_eq!(g.score_points_max, 3);
    assert_eq!(a.score, Some(1));
    assert_eq!(a.submitted_at, Some(NOW + 5));
    let r = s.submit_attempt_at(Some(attempt(Some(NOW))), 0xA, STUDENT, Some(quiz(QuizKind::Traditional)), questions(), &answers, NOW + 5);
    assert!(matches!(r, Err(AppError::Attempt(AttemptError::AlreadySubmitted))));
    let r = s.submit_attempt_at(Some(attempt(None)), 0xA, STUDENT, None, questions(), &answers, NOW + 5);
    assert!(matches!(r, Err(AppError::Quiz(QuizError::NotFound(_)))));
}

#[test]
fn results_need_a_graded_submission() {
    let s = attempts_service();
    let answers = vec![answer(2, 2, None)];
    let mut graded = attempt(Some(NOW + 10));
    graded.score = Some(1);
    let v = s
        .view_results_at(Some(graded.clone()), 0xA, STUDENT, Some(quiz(QuizKind::Traditional)), true, questions(), &answers, NOW + 20)
        .ok()
        .unwrap();
    assert_eq!(v.score_points, 1);
    assert_eq!(v.score_points_max, 3);
    assert_eq!(v.status, AttemptStatus::Submitted);
    assert_eq!(v.submitted_at, NOW + 10);
    assert_eq!(v.results_viewed_at, Some(NOW + 20));
    assert_eq!(v.questions.len(), 3);
    let r = s.view_results_at(Some(attempt(None)), 0xA, STUDENT, Some(quiz(QuizKind::Traditional)), true, questions(), &answers, NOW);
    assert!(matches!(r, Err(AppError::Attempt(AttemptError::ResultsNotAvailable))));
    let r = s.view_results_at(Some(graded), 0xA, STUDENT, Some(quiz(QuizKind::Traditional)), false, questions(), &answers, NOW);
    assert!(matches!(r, Err(AppError::Attempt(AttemptError::ResultsNotAvailable))));
}

#[test]
fn start_attempt_creates_or_resumes() {
    let s = evaluation_service();
    let st = user(STUDENT, UserRole::Student);
    match s.start_attempt_at(&st, Some(quiz(QuizKind::Certainty)), QUIZ, &questions(), None, NOW, 0xB) {
        Ok(StartOutcome::Created(a)) => {
            assert_eq!(a.id, 0xB);
            assert_eq!(a.question_order.len(), 3);
            assert_eq!(a.expires_at, NOW + 30 * MICROS_PER_MINUTE);
        }
        _ => panic!("expected a new attempt"),
    }
    match s.start_attempt_at(&st, Some(quiz(QuizKind::Certainty)), QUIZ, &questions(), Some(attempt(None)), NOW, 0xB) {
        Ok(StartOutcome::Resumed(a)) => assert_eq!(a.id, 0xA),
        _ => panic!("expected the attempt in progress"),
    }
    assert!(matches!(
        s.start_attempt(&user(1, UserRole::Func), Some(quiz(QuizKind::Certainty)), QUIZ, &questions(), None),
        Err(AppError::Attempt(AttemptError::Forbidden))
    ));
    assert!(matches!(
        s.start_attempt_at(&st, Some(quiz(QuizKind::Certainty)), QUIZ, &questions(), Some(attempt(Some(NOW))), NOW, 1),
        Err(AppError::Attempt(AttemptError::AlreadySubmitted))
    ));
}

#[test]
fn evaluation_scores_against_the_best_points() {
    let s = evaluation_service();
    let answers = vec![answer(1, 0, Some(CertaintyLevel::High)), answer(2, 1, Some(CertaintyLevel::High))];
    let e = s.evaluate_attempt(&questions(), Some(table()), &[1, 2, 3], &answers);
    assert_eq!(e.score_points, 3 - 2);
    assert_eq!(e.score_points_max, 9);
    assert_eq!(e.questions.len(), 3);
    let e = s.evaluate_attempt(&questions(), None, &[1, 2, 42], &answers);
    assert_eq!(e.score_points, 1);
    assert_eq!(e.score_points_max, 3);
    assert_eq!(e.questions.len(), 2);
    assert_eq!(s.compute_awarded_points(false, Some(table()), true, None), 1);
}

#[test]
fn snapshot_lists_questions_in_attempt_order() {
    let s = evaluation_service();
    let answers = vec![answer(1, 0, None), answer(3, 2, None)];
    let (view, qs, given) = s.build_snapshot(&questions(), &attempt(None), answers.clone());
    assert_eq!(given, answers);
    assert_eq!(view.attempt_id, 0xA);
    assert_eq!(qs.iter().map(|q| q.id).collect::<Vec<_>>(), vec![2, 1, 3]);
}

#[test]
fn result_access_rules() {
    let s = evaluation_service();
    assert_eq!(s.check_result_access(None, Some(1), None), Err(AttemptError::NotSubmitted));
    assert_eq!(s.check_result_access(Some(1), None, None), Err(AttemptError::ResultsNotAvailable));
    assert_eq!(s.check_result_access(Some(1), Some(2), Some(3)), Err(AttemptError::ResultAlreadyViewed));
    assert_eq!(s.check_result_access(Some(1), Some(2), None), Ok(()));
    assert_eq!(s.explain_lost_view(0xA, None), AttemptError::NotFound(0xA));
    assert_eq!(s.explain_lost_view(0xA, Some(None)), AttemptError::ResultsNotAvailable);
    assert_eq!(s.explain_lost_view(0xA, Some(Some(5))), AttemptError::ResultAlreadyViewed);
    assert!(s.needs_evaluation(true, true, false, true));
    assert!(!s.needs_evaluation(true, true, true, true));
    let st = user(STUDENT, UserRole::Student);
    assert_eq!(s.get_active_attempt_for_quiz(&st, QUIZ, None).err(), Some(AttemptError::ActiveAttemptNotFound(QUIZ)));
}

#[test]
fn owner_answers_listed_questions_only() {
    let s = evaluation_service();
    let st = user(STUDENT, UserRole::Student);
    let r = s.save_answer_at(&st, 0xA, Some(attempt(None)), Some(quiz(QuizKind::Certainty)), &questions(), 3, 3, Some(CertaintyLevel::Low), NOW);
    assert_eq!(r, Ok(answer(3, 3, Some(CertaintyLevel::Low))));
    let r = s.save_answer_at(&st, 0xA, Some(attempt(None)), Some(quiz(QuizKind::Certainty)), &questions(), 3, 4, None, NOW);
    assert_eq!(r, Err(AttemptError::InvalidAnswerIndex));
    let r = s.save_answer_at(&st, 0xA, Some(attempt(None)), Some(quiz(QuizKind::Certainty)), &questions(), 8, 0, None, NOW);
    assert_eq!(r, Err(AttemptError::QuestionNotInAttempt(8)));
    let r = s.save_answer_at(&st, 0xA, Some(attempt(None)), None, &questions(), 3, 0, None, NOW);
    assert_eq!(r, Err(AttemptError::NotFound(QUIZ)));
    let r = s.save_answer_at(&user(1, UserRole::Student), 0xA, Some(attempt(None)), None, &questions(), 3, 0, None, NOW);
    assert_eq!(r, Err(AttemptError::Forbidden));
    assert_eq!(s.require_quiz(QUIZ, None).err(), Some(AttemptError::NotFound(QUIZ)));
}

#[test]
fn validated_table_keeps_327_questions_in_range() {
    let full = CertaintyTable {
        low: CertaintyScore { correct: 100, incorrect: -100 },
        medium: CertaintyScore { correct: 100, incorrect: -100 },
        high: CertaintyScore { correct: 100, incorrect: -100 },
    };
    let qs: HashMap<u128, QuestionBankQuestion> =
        (1..=327u128).map(|id| (id, question(id, 2, 0))).collect();
    let order: Vec<u128> = (1..=327u128).collect();
    let right: Vec<AttemptAnswer> = order.iter().map(|&id| answer(id, 0, Some(CertaintyLevel::High))).collect();
    let wrong: Vec<AttemptAnswer> = order.iter().map(|&id| answer(id, 1, Some(CertaintyLevel::High))).collect();
    assert!(score_fits_check(&order, &qs, &right, QuizKind::Certainty, Some(full)));
    assert!(score_fits_check(&order, &qs, &wrong, QuizKind::Certainty, Some(full)));
    let g = GradingService;
    assert_eq!(g.grade_attempt(&order, &qs, &right, QuizKind::Certainty, Some(full)).score_points, 32_700);
    assert_eq!(g.grade_attempt(&order, &qs, &wrong, QuizKind::Certainty, Some(full)).score_points, -32_700);
}

#[test]
fn traditional_score_stays_within_its_maximum() {
    let g = GradingService;
    let all_right = vec![answer(1, 0, None), answer(2, 2, None), answer(3, 1, None)];
    let out = g.grade_attempt(&[1, 2, 3, 99], &by_id(), &all_right, QuizKind::Traditional, None);
    assert_eq!(out.score_points, 3);
    assert_eq!(out.score_points_max, 4);
    let none = g.grade_attempt(&[1, 2, 3], &by_id(), &[], QuizKind::Traditional, None);
    assert_eq!(none.score_points, 0);
}

#[test]
fn evaluated_score_stays_within_its_maximum() {
    let s = evaluation_service();
    let best = vec![
        answer(1, 0, Some(CertaintyLevel::High)),
        answer(2, 2, Some(CertaintyLevel::High)),
        answer(3, 1, Some(CertaintyLevel::High)),
    ];
    let e = s.evaluate_attempt(&questions(), Some(table()), &[1, 2, 3], &best);
    assert_eq!(e.score_points, e.score_points_max);
    let worst = vec![
        answer(1, 1, Some(CertaintyLevel::High)),
        answer(2, 0, Some(CertaintyLevel::High)),
        answer(3, 0, Some(CertaintyLevel::High)),
    ];
    let e = s.evaluate_attempt(&questions(), Some(table()), &[1, 2, 3], &worst);
    assert_eq!(e.score_points, -6);
    assert!(e.score_points >= -100 * 3);
}

#[test]
fn expiry_is_final_and_submission_implies_access() {
    let p = AttemptPolicy;
    let s = user(STUDENT, UserRole::Student);
    let a = attempt(None);
    for later in [a.expires_at + 1, a.expires_at + 60_000_000, i64::MAX] {
        assert_eq!(p.can_submit_attempt_at(&s, &a, later), Err(AttemptError::Expired));
    }
    for earlier in [a.expires_at, a.started_at, i64::MIN] {
        assert_eq!(p.can_submit_attempt_at(&s, &a, earlier), Ok(()));
        assert_eq!(p.can_access_attempt(&s, &a), Ok(()));
    }
}

fn stored_nothing() -> EvaluationRecord {
    EvaluationRecord {
        score_points: None,
        score_points_max: None,
        evaluated_at: None,
        results_released_at: None,
        updated_at: NOW + 50,
    }
}

#[test]
fn student_result_is_shown_once_and_marked_viewed() {
    let s = evaluation_service();
    let st = user(STUDENT, UserRole::Student);
    let answers = vec![answer(2, 2, None), answer(1, 1, None)];
    let (viewed, view) = s
        .result_for_student_at(&st, QUIZ, Some(attempt(Some(NOW + 10))), Some(quiz(QuizKind::Traditional)), Some(NOW + 40), &questions(), &answers, stored_nothing(), NOW + 60)
        .ok()
        .unwrap();
    assert_eq!(viewed.results_viewed_at, Some(NOW + 60));
    assert_eq!(viewed.submitted_at, Some(NOW + 10));
    assert_eq!(view.attempt_id, 0xA);
    assert_eq!(view.quiz_id, QUIZ);
    assert_eq!(view.status, AttemptStatus::Submitted);
    assert_eq!(view.score_points, 1);
    assert_eq!(view.score_points_max, 3);
    assert_eq!(view.evaluated_at, NOW + 50);
    assert_eq!(view.results_released_at, NOW + 50);
    assert_eq!(view.results_viewed_at, Some(NOW + 60));
    assert_eq!(view.questions.len(), 3);
    let again = s.result_for_student_at(&st, QUIZ, Some(viewed.clone()), Some(quiz(QuizKind::Traditional)), Some(NOW + 40), &questions(), &answers, stored_nothing(), NOW + 70);
    assert_eq!(again.err(), Some(AttemptError::ResultAlreadyViewed));
    let again = s.result_for_owner_at(&st, 0xA, Some(viewed), Some(NOW + 40), Some(quiz(QuizKind::Traditional)), &questions(), &answers, stored_nothing(), NOW + 70);
    assert_eq!(again.err(), Some(AttemptError::ResultAlreadyViewed));
    let mut seen = attempt(Some(NOW + 10));
    seen.results_viewed_at = Some(NOW + 20);
    let r = s.result_for_student_at(&st, QUIZ, Some(seen), Some(quiz(QuizKind::Traditional)), Some(NOW + 40), &questions(), &answers, stored_nothing(), NOW + 60);
    assert_eq!(r.err(), Some(AttemptError::ResultAlreadyViewed));
    let r = s.result_for_student_at(&st, QUIZ, Some(attempt(Some(NOW + 10))), None, Some(NOW + 40), &questions(), &answers, stored_nothing(), NOW + 60);
    assert_eq!(r.err(), Some(AttemptError::NotFound(QUIZ)));
}

#[test]
fn student_result_checks_in_order() {
    let s = evaluation_service();
    let st = user(STUDENT, UserRole::Student);
    let done = Some(attempt(Some(NOW + 10)));
    assert_eq!(s.result_for_student_check(&user(1, UserRole::Func), QUIZ, done.clone(), true, Some(1)).err(), Some(AttemptError::Forbidden));
    assert_eq!(s.result_for_student_check(&st, QUIZ, None, true, Some(1)).err(), Some(AttemptError::NotFound(QUIZ)));
    assert_eq!(s.result_for_student_check(&st, QUIZ, Some(attempt(None)), false, None).err(), Some(AttemptError::NotSubmitted));
    assert_eq!(s.result_for_student_check(&st, QUIZ, done.clone(), false, Some(1)).err(), Some(AttemptError::NotFound(QUIZ)));
    assert_eq!(s.result_for_student_check(&st, QUIZ, done.clone(), true, None).err(), Some(AttemptError::ResultsNotAvailable));
    assert_eq!(s.result_for_student_check(&st, QUIZ, done, true, Some(1)).ok().map(|a| a.id), Some(0xA));
}

#[test]
fn owner_result_uses_stored_scores() {
    let s = evaluation_service();
    let st = user(STUDENT, UserRole::Student);
    let stored = EvaluationRecord {
        score_points: Some(7),
        score_points_max: Some(9),
        evaluated_at: Some(NOW + 30),
        results_released_at: Some(NOW + 35),
        updated_at: NOW + 50,
    };
    let (viewed, view) = s
        .result_for_owner_at(&st, 0xA, Some(attempt(Some(NOW + 10))), Some(NOW + 35), Some(quiz(QuizKind::Certainty)), &questions(), &[], stored, NOW + 60)
        .ok()
        .unwrap();
    assert_eq!(viewed.results_viewed_at, Some(NOW + 60));
    assert_eq!(view.score_points, 7);
    assert_eq!(view.score_points_max, 9);
    assert_eq!(view.evaluated_at, NOW + 30);
    assert_eq!(view.results_released_at, NOW + 35);
    let r = s.result_for_owner_at(&user(1, UserRole::Student), 0xA, Some(attempt(Some(NOW + 10))), Some(NOW + 35), Some(quiz(QuizKind::Certainty)), &questions(), &[], stored, NOW + 60);
    assert_eq!(r.err(), Some(AttemptError::Forbidden));
    let r = s.result_for_owner_at(&st, 0xA, Some(attempt(Some(NOW + 10))), Some(NOW + 35), None, &questions(), &[], stored, NOW + 60);
    assert_eq!(r.err(), Some(AttemptError::NotFound(QUIZ)));
    let r = s.result_for_owner_at(&st, 0xA, None, Some(NOW + 35), None, &questions(), &[], stored, NOW + 60);
    assert_eq!(r.err(), Some(AttemptError::NotFound(0xA)));
    assert_eq!(s.result_for_owner_check(&st, 0xA, Some(attempt(Some(NOW + 10))), None).err(), Some(AttemptError::ResultsNotAvailable));
}

#[test]
fn finalizing_hands_in_and_evaluates_attempts() {
    let s = evaluation_service();
    let admin = user(1, UserRole::Admin);
    let mut other = attempt(None);
    other.id = 0xB;
    other.question_order = vec![1];
    let answers = vec![vec![answer(2, 2, None)], vec![answer(1, 0, None)]];
    let mut done = attempt(Some(NOW + 5));
    done.id = 0xC;
    let mut complete = done.clone();
    complete.id = 0xD;
    let full = EvaluationRecord {
        score_points: Some(2),
        score_points_max: Some(3),
        evaluated_at: Some(NOW + 6),
        results_released_at: None,
        updated_at: NOW + 6,
    };
    let f = s
        .finalize_at(
            &admin,
            QUIZ,
            Some(quiz(QuizKind::Traditional)),
            false,
            &questions(),
            vec![attempt(None), other],
            &answers,
            &vec![done, complete],
            &vec![true, true],
            &vec![stored_nothing(), full],
            &vec![vec![answer(2, 2, None), answer(1, 0, None)], vec![]],
            NOW + 90,
        )
        .ok()
        .unwrap();
    assert_eq!(f.late_evaluations.len(), 2);
    assert_eq!(f.late_evaluations[0].as_ref().map(|e| (e.score_points, e.score_points_max)), Some((2, 3)));
    assert!(f.late_evaluations[1].is_none());
    assert_eq!(f.quiz.closed_at, Some(NOW + 90));
    assert_eq!(f.attempts.len(), 2);
    assert_eq!(f.attempts[0].id, 0xA);
    assert_eq!(f.attempts[1].id, 0xB);
    assert!(f.attempts.iter().all(|a| a.submitted_at == Some(NOW + 90)));
    assert_eq!(f.evaluations[0].score_points, 1);
    assert_eq!(f.evaluations[0].score_points_max, 3);
    assert_eq!(f.evaluations[1].score_points, 1);
    assert_eq!(f.evaluations[1].score_points_max, 1);
    let mut closed = quiz(QuizKind::Traditional);
    closed.closed_at = Some(NOW);
    let f = s.finalize_at(&admin, QUIZ, Some(closed), false, &questions(), vec![], &vec![], &vec![], &vec![], &vec![], &vec![], NOW + 90).ok().unwrap();
    assert_eq!(f.quiz.closed_at, Some(NOW));
    assert!(f.attempts.is_empty());
    let r = s.finalize_at(&user(2, UserRole::Func), QUIZ, Some(quiz(QuizKind::Traditional)), false, &questions(), vec![], &vec![], &vec![], &vec![], &vec![], &vec![], NOW);
    assert!(matches!(r, Err(QuizError::Forbidden)));
    let r = s.finalize_at(&admin, QUIZ, None, true, &questions(), vec![], &vec![], &vec![], &vec![], &vec![], &vec![], NOW);
    assert!(matches!(r, Err(QuizError::NotFound(_))));
}

#[test]
fn a_submitted_attempt_is_not_submitted_again() {
    let s = attempts_service();
    let answers = vec![answer(2, 2, None)];
    let (a, _) = s
        .submit_attempt_at(Some(attempt(None)), 0xA, STUDENT, Some(quiz(QuizKind::Traditional)), questions(), &answers, NOW + 5)
        .ok()
        .unwrap();
    let expires = a.expires_at;
    let r = s.submit_attempt_at(Some(a.clone()), 0xA, STUDENT, Some(quiz(QuizKind::Traditional)), questions(), &answers, NOW + 6);
    assert!(matches!(r, Err(AppError::Attempt(AttemptError::AlreadySubmitted))));
    let r = s.submit_attempt_at(Some(a), 0xA, STUDENT, Some(quiz(QuizKind::Traditional)), questions(), &answers, expires + MICROS_PER_MINUTE + 1);
    assert!(matches!(r, Err(AppError::Attempt(AttemptError::Expired))));
}
