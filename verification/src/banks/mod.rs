//! Question banks: entities, input checks, views and the rules of the bank
//! services.
pub mod dtos;
pub mod entity;
pub mod errors;
pub mod services;
pub mod views;
