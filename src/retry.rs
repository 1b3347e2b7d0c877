//! Bounded retries with a fixed pause, for fetches a run cannot do without.
use vstd::prelude::*;

verus! {

/// Pause between two attempts, in milliseconds.
pub const RETRY_DELAY_MS: u64 = 3000;

/// What to do after a failed attempt.
#[derive(Clone, Copy, Debug, PartialEq, Eq, Structural)]
pub enum RetryStep {
    /// Wait this many milliseconds, then try again.
    Wait(u64),
    /// Stop and report the last error.
    GiveUp,
}

/// Counts failed attempts against the number of retries allowed after the first.
pub struct RetryPolicy {
    retries: u32,
    failures: u64,
}

impl RetryPolicy {
    pub closed spec fn retries_allowed(&self) -> nat {
        self.retries as nat
    }

    pub closed spec fn failures_seen(&self) -> nat {
        self.failures as nat
    }

    /// Whether the policy has given up.
    pub open spec fn exhausted(&self) -> bool {
        self.failures_seen() > self.retries_allowed()
    }

    /// A policy that allows `retries` attempts after the first.
    pub fn new(retries: u32) -> (r: RetryPolicy)
        ensures
            r.retries_allowed() == retries,
            r.failures_seen() == 0,
    {
        RetryPolicy { retries, failures: 0 }
    }

    /// Records a failed attempt and tells whether to try again.
    pub fn on_failure(&mut self) -> (r: RetryStep)
        requires
            !old(self).exhausted(),
        ensures
            final(self).retries_allowed() == old(self).retries_allowed(),
            final(self).failures_seen() == old(self).failures_seen() + 1,
            r == if final(self).exhausted() {
                RetryStep::GiveUp
            } else {
                RetryStep::Wait(RETRY_DELAY_MS)
            },
            r == RetryStep::GiveUp ==> final(self).failures_seen() == final(self).retries_allowed() + 1,
    {
        self.failures = self.failures + 1;
        if self.failures > self.retries as u64 {
            RetryStep::GiveUp
        } else {
            RetryStep::Wait(RETRY_DELAY_MS)
        }
    }
}

} // verus!
