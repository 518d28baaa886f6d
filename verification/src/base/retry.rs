//! Retry decisions: how many attempts an operation gets, and which errors are transient.
use crate::error::RustDriveSyncError;
use vstd::prelude::*;

verus! {

/// Whether an error is transient and worth retrying: network errors, timeouts, rate limits
/// and errors of the remote API. Authentication, permission and validation errors are not.
pub fn is_retryable_error(error: &RustDriveSyncError) -> (r: bool)
    ensures
        r == (error is NetworkError || error is RequestTimeout || error is RateLimitExceeded
            || error is DriveApiError),
{
    match error {
        RustDriveSyncError::NetworkError { .. } => true,
        RustDriveSyncError::RequestTimeout => true,
        RustDriveSyncError::RateLimitExceeded { .. } => true,
        RustDriveSyncError::DriveApiError { .. } => true,
        _ => false,
    }
}

/// What follows an attempt.
#[derive(Debug, PartialEq, Eq, Structural)]
pub enum RetryDecision {
    /// The attempt succeeded: return its result.
    Finish,
    /// The attempt numbered `attempt` failed and more are allowed: wait the delay of that
    /// attempt, then try again.
    WaitThenRetry { attempt: u32 },
    /// The last allowed attempt failed: return its error.
    GiveUp,
}

/// The number of attempts an operation gets: `max_attempts`, but at least one.
pub open spec fn allowed_attempts(max_attempts: u32) -> nat {
    if max_attempts == 0 {
        1
    } else {
        max_attempts as nat
    }
}

/// The decision after attempt number `attempt` succeeded (`ok`) or failed.
pub open spec fn decide(attempt: u32, max_attempts: u32, ok: bool) -> RetryDecision {
    if ok {
        RetryDecision::Finish
    } else if attempt >= max_attempts {
        RetryDecision::GiveUp
    } else {
        RetryDecision::WaitThenRetry { attempt }
    }
}

/// The decision after attempt number `attempt` failed with an error that is `retryable` or
/// not, when only transient errors are retried: a permanent error gives up at once.
pub open spec fn decide_on_error(attempt: u32, max_attempts: u32, retryable: bool) -> RetryDecision {
    if retryable {
        decide(attempt, max_attempts, false)
    } else {
        RetryDecision::GiveUp
    }
}

/// The attempt counter of an operation run with retries.
pub struct RetryState {
    attempt: u32,
    max_attempts: u32,
}

impl RetryState {
    #[verifier::type_invariant]
    spec fn counter_in_range(self) -> bool {
        1 <= self.attempt <= allowed_attempts(self.max_attempts)
    }

    /// The number of the attempt under way (the first is 1).
    pub closed spec fn current(self) -> u32 {
        self.attempt
    }

    /// The configured number of attempts.
    pub closed spec fn limit(self) -> u32 {
        self.max_attempts
    }

    /// The state before the first attempt of an operation allowed `max_attempts` attempts.
    pub fn start(max_attempts: u32) -> (r: Self)
        ensures
            r.current() == 1,
            r.limit() == max_attempts,
    {
        RetryState { attempt: 1, max_attempts }
    }

    /// The number of the attempt under way.
    pub fn attempt(&self) -> (r: u32)
        ensures
            r == self.current(),
            1 <= r <= allowed_attempts(self.limit()),
    {
        proof {
            use_type_invariant(self);
        }
        self.attempt
    }

    /// The configured number of attempts.
    pub fn max_attempts(&self) -> (r: u32)
        ensures
            r == self.limit(),
    {
        self.max_attempts
    }

    /// Records the outcome of the attempt under way and says what follows; after a failure
    /// that is not the last allowed one, the counter moves to the next attempt.
    pub fn after_attempt(&mut self, succeeded: bool) -> (r: RetryDecision)
        ensures
            r == decide(old(self).current(), old(self).limit(), succeeded),
            final(self).limit() == old(self).limit(),
            r is WaitThenRetry ==> final(self).current() == old(self).current() + 1,
            !(r is WaitThenRetry) ==> final(self).current() == old(self).current(),
    {
        proof {
            use_type_invariant(&*self);
        }
        if succeeded {
            RetryDecision::Finish
        } else if self.attempt >= self.max_attempts {
            RetryDecision::GiveUp
        } else {
            let attempt = self.attempt;
            self.attempt = attempt + 1;
            RetryDecision::WaitThenRetry { attempt }
        }
    }

    /// Records that the attempt under way failed with an error that is `retryable` or not,
    /// when only transient errors are retried, and says what follows.
    pub fn after_failure(&mut self, retryable: bool) -> (r: RetryDecision)
        ensures
            r == decide_on_error(old(self).current(), old(self).limit(), retryable),
            final(self).limit() == old(self).limit(),
            r is WaitThenRetry ==> final(self).current() == old(self).current() + 1,
            !(r is WaitThenRetry) ==> final(self).current() == old(self).current(),
    {
        if retryable {
            self.after_attempt(false)
        } else {
            RetryDecision::GiveUp
        }
    }
}

/// When every attempt fails, the operation is attempted exactly `allowed_attempts` times:
/// each failed attempt before the last allowed one leads to a retry, and the last allowed
/// one leads to giving up. A successful attempt always finishes at once.
pub proof fn law_attempts_until_give_up(max_attempts: u32, attempt: u32)
    requires
        1 <= attempt <= allowed_attempts(max_attempts),
    ensures
        attempt < allowed_attempts(max_attempts) ==> decide(attempt, max_attempts, false)
            == (RetryDecision::WaitThenRetry { attempt }),
        attempt == allowed_attempts(max_attempts) ==> decide(attempt, max_attempts, false)
            == RetryDecision::GiveUp,
        decide(attempt, max_attempts, true) == RetryDecision::Finish,
{
}

} // verus!
