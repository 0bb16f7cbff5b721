//! Verified core of a course, question-bank and quiz server: roles and
//! permissions, input validation, quiz and attempt rules, grading and the
//! decisions taken by the services around the database.
pub mod attempts;
pub mod auth;
pub mod authz;
pub mod banks;
pub mod courses;
pub mod errors;
pub mod quizzes;
pub mod snapshots;
pub mod support;
pub mod users;
