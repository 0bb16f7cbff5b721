use vstd::prelude::*;

use crate::attempts::entity::Attempt;
use crate::attempts::errors::AttemptError;
use crate::support::{now_micros, valid_instant, Timestamp};
use crate::users::{User, UserRole};

verus! {

/// Who may start, see, answer and hand in attempts.
pub struct AttemptPolicy;

/// The outcome of the submission check at instant `now`.
pub open spec fn submit_check(user: User, attempt: Attempt, now: Timestamp) -> Result<(), AttemptError> {
    if attempt.student_id != user.id {
        Err(AttemptError::Forbidden)
    } else if attempt.submitted_at is Some {
        Err(AttemptError::AlreadySubmitted)
    } else if now > attempt.expires_at {
        Err(AttemptError::Expired)
    } else {
        Ok(())
    }
}

impl AttemptPolicy {
    /// Only students start attempts.
    pub fn can_start_attempt(&self, current_user: &User) -> (r: Result<(), AttemptError>)
        ensures
            r is Ok <==> current_user.role == UserRole::Student,
            r matches Err(e) ==> e == AttemptError::Forbidden,
    {
        if current_user.role == UserRole::Student {
            return Ok(());
        }
        Err(AttemptError::Forbidden)
    }

    /// Only the student who owns an attempt may access it.
    pub fn can_access_attempt(&self, current_user: &User, attempt: &Attempt) -> (r: Result<(), AttemptError>)
        ensures
            r is Ok <==> attempt.student_id == current_user.id,
            r matches Err(e) ==> e == AttemptError::Forbidden,
    {
        if attempt.student_id == current_user.id {
            return Ok(());
        }
        Err(AttemptError::Forbidden)
    }

    /// The submission check at a given instant: the owner may hand in an
    /// attempt not yet handed in and not past its expiry.
    pub fn can_submit_attempt_at(&self, current_user: &User, attempt: &Attempt, now: Timestamp) -> (r:
        Result<(), AttemptError>)
        ensures
            r == submit_check(*current_user, *attempt, now),
    {
        match self.can_access_attempt(current_user, attempt) {
            Err(e) => {
                return Err(e);
            },
            Ok(()) => {},
        }
        if attempt.submitted_at.is_some() {
            return Err(AttemptError::AlreadySubmitted);
        }
        if now > attempt.expires_at {
            return Err(AttemptError::Expired);
        }
        Ok(())
    }

    /// The submission check at the current instant, read from the clock.
    pub fn can_submit_attempt(&self, current_user: &User, attempt: &Attempt) -> (r: Result<(), AttemptError>)
        ensures
            exists|now: Timestamp| valid_instant(now as int) && r == #[trigger] submit_check(*current_user, *attempt, now),
            attempt.student_id != current_user.id ==> r == Err::<(), AttemptError>(AttemptError::Forbidden),
            attempt.student_id == current_user.id && attempt.submitted_at is Some ==> r == Err::<
                (),
                AttemptError,
            >(AttemptError::AlreadySubmitted),
    {
        let now = now_micros();
        self.can_submit_attempt_at(current_user, attempt, now)
    }

    /// Saving an answer is allowed exactly when submitting is.
    pub fn can_save_answer(&self, current_user: &User, attempt: &Attempt) -> (r: Result<(), AttemptError>)
        ensures
            exists|now: Timestamp| valid_instant(now as int) && r == #[trigger] submit_check(*current_user, *attempt, now),
            attempt.student_id != current_user.id ==> r == Err::<(), AttemptError>(AttemptError::Forbidden),
            attempt.student_id == current_user.id && attempt.submitted_at is Some ==> r == Err::<
                (),
                AttemptError,
            >(AttemptError::AlreadySubmitted),
    {
        self.can_submit_attempt(current_user, attempt)
    }
}

/// Whoever may hand in (or answer) an attempt may access it.
pub proof fn lemma_submit_implies_access(user: User, attempt: Attempt, now: Timestamp)
    requires
        submit_check(user, attempt, now) is Ok,
    ensures
        attempt.student_id == user.id,
{
}

/// Expiry is final: an attempt refused as expired at one instant is
/// refused as expired at every later instant.
pub proof fn lemma_expired_stays_expired(user: User, attempt: Attempt, now: Timestamp, later: Timestamp)
    requires
        submit_check(user, attempt, now) == Err::<(), AttemptError>(AttemptError::Expired),
        now <= later,
    ensures
        submit_check(user, attempt, later) == Err::<(), AttemptError>(AttemptError::Expired),
{
}

/// An attempt that may be handed in at one instant may be handed in at
/// every earlier instant.
pub proof fn lemma_open_earlier(user: User, attempt: Attempt, now: Timestamp, earlier: Timestamp)
    requires
        submit_check(user, attempt, now) is Ok,
        earlier <= now,
    ensures
        submit_check(user, attempt, earlier) is Ok,
{
}

} // verus!
