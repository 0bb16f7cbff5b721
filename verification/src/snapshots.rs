//! The questions a quiz was created with, kept apart from its banks.
use vstd::prelude::*;

use crate::banks::entity::Question;
use crate::support::Timestamp;

verus! {

/// The stored copy of the questions of a quiz's banks.
#[derive(Clone, Debug)]
pub struct QuestionBankSnapshot {
    pub id: u128,
    pub questions: Vec<Question>,
    pub deleted_at: Option<Timestamp>,
}

} // verus!
