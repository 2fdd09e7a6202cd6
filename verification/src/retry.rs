use vstd::prelude::*;

verus! {

/// What to do after a failed attempt of an operation retried with linear backoff.
#[derive(Debug, Clone, Copy, PartialEq, Eq, Structural)]
pub enum RetryDecision {
    /// Give up and report the last error.
    GiveUp,
    /// Sleep `delay_factor` times the base delay, then try again.
    Retry { delay_factor: u32 },
}

/// The number of failed attempts after which an operation allowed `max_attempts` attempts is
/// given up: every operation is attempted at least once.
pub open spec fn attempts_allowed(max_attempts: u32) -> nat {
    if max_attempts == 0 {
        1
    } else {
        max_attempts as nat
    }
}

/// The decision taken once `failures` attempts have failed.
pub open spec fn decision_after(max_attempts: u32, failures: nat) -> RetryDecision {
    if failures >= max_attempts {
        RetryDecision::GiveUp
    } else {
        RetryDecision::Retry { delay_factor: failures as u32 }
    }
}

/// Counts the failed attempts of an operation retried with linear backoff: after the `n`-th
/// failure it sleeps `n` times the base delay, until `max_attempts` attempts have failed.
#[derive(Debug, Clone, Copy)]
pub struct RetryBackoff {
    attempts: u32,
    max_attempts: u32,
}

impl RetryBackoff {
    #[verifier::type_invariant]
    spec fn below_limit(self) -> bool {
        self.attempts < attempts_allowed(self.max_attempts)
    }

    /// The number of attempts that failed so far.
    pub closed spec fn failures(self) -> nat {
        self.attempts as nat
    }

    /// The number of attempts allowed.
    pub closed spec fn max_attempts(self) -> u32 {
        self.max_attempts
    }

    /// Starts counting for an operation allowed `max_attempts` attempts.
    pub fn new(max_attempts: u32) -> (r: RetryBackoff)
        ensures
            r.failures() == 0,
            r.max_attempts() == max_attempts,
    {
        RetryBackoff { attempts: 0, max_attempts }
    }

    /// Records a failed attempt. Once `max_attempts` attempts have failed (one, when no attempt is
    /// allowed) the operation is given up; otherwise it is retried after `n` times the base delay,
    /// `n` being the number of failures so far.
    pub fn after_failure(self) -> (r: (RetryDecision, RetryBackoff))
        ensures
            r.0 == decision_after(self.max_attempts(), self.failures() + 1),
            r.0 is Retry ==> r.1.failures() == self.failures() + 1 && r.1.max_attempts()
                == self.max_attempts(),
    {
        proof {
            use_type_invariant(&self);
        }
        let attempts = self.attempts + 1;
        if attempts >= self.max_attempts {
            (RetryDecision::GiveUp, self)
        } else {
            (
                RetryDecision::Retry { delay_factor: attempts },
                RetryBackoff { attempts, max_attempts: self.max_attempts },
            )
        }
    }
}

/// The decisions taken after each of `failures` consecutive failed attempts of an operation
/// allowed `max_attempts` attempts, starting from a fresh count.
pub open spec fn backoff_schedule(max_attempts: u32, failures: nat) -> Seq<RetryDecision> {
    Seq::new(failures, |i: int| decision_after(max_attempts, (i + 1) as nat))
}

/// An operation allowed `max_attempts` attempts is tried exactly `attempts_allowed(max_attempts)`
/// times when every attempt fails: every failure but the last is followed by a retry whose delay
/// grows by one base delay each time, and the last is given up.
pub proof fn lemma_backoff_gives_up_after_allowed_attempts(max_attempts: u32)
    ensures
        backoff_schedule(max_attempts, attempts_allowed(max_attempts)).last() == RetryDecision::GiveUp,
        forall|i: int|
            0 <= i < attempts_allowed(max_attempts) - 1 ==> #[trigger] backoff_schedule(
                max_attempts,
                attempts_allowed(max_attempts),
            )[i] == (RetryDecision::Retry { delay_factor: (i + 1) as u32 }),
{
}

} // verus!
