//! Attempts: entities, views, grading, question checks, access rules and
//! the decisions of the attempt services.
pub mod dtos;
pub mod entity;
pub mod errors;
pub mod evaluation;
pub mod grading;
pub mod policy;
pub mod questions;
pub mod services;
