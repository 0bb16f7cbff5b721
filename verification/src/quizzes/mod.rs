//! Quizzes: entities, input checks, views, join codes and the rules of the
//! quiz services.
pub mod dtos;
pub mod entity;
pub mod errors;
pub mod services;
pub mod views;
