//! The retry rule of a client that fetches a chain-state reference before it
//! submits an instruction: a bounded number of attempts with a fixed pause
//! after each failure. The client makes the call and sleeps; what to do next
//! is decided here.

use vstd::prelude::*;

verus! {

/// How many attempts are made before the client gives up.
pub const MAX_ATTEMPTS: u32 = 5;

/// How long the client pauses after a failed attempt, in seconds.
pub const RETRY_DELAY_SECS: u64 = 2;

/// What the client does next.
#[derive(Debug, Clone, Copy, PartialEq, Eq, Structural)]
pub enum RetryAction {
    /// Make the call; `number` counts the attempts from one.
    Attempt { number: u32 },
    /// Every attempt failed: report a terminal failure.
    GiveUp,
}

/// The attempts that have failed so far.
#[derive(Debug, Clone, Copy)]
pub struct RetryState {
    failures: u32,
}

impl RetryState {
    /// The number of failed attempts.
    pub closed spec fn failures(&self) -> nat {
        self.failures as nat
    }

    /// The state before the first attempt.
    pub fn new() -> (state: RetryState)
        ensures
            state.failures() == 0,
    {
        RetryState { failures: 0 }
    }

    /// The number of failed attempts.
    pub fn failed_attempts(&self) -> (count: u32)
        ensures
            count == self.failures(),
    {
        self.failures
    }

    /// Another attempt while fewer than `MAX_ATTEMPTS` have failed, and
    /// giving up after that.
    pub fn next_action(&self) -> (action: RetryAction)
        ensures
            self.failures() < MAX_ATTEMPTS ==> action == (RetryAction::Attempt {
                number: (self.failures() + 1) as u32,
            }),
            self.failures() >= MAX_ATTEMPTS ==> action == RetryAction::GiveUp,
    {
        if self.failures < MAX_ATTEMPTS {
            RetryAction::Attempt { number: self.failures + 1 }
        } else {
            RetryAction::GiveUp
        }
    }

    /// Notes that the attempt just made failed, and tells how many seconds
    /// to pause before asking for the next action. Failures past the bound
    /// are not counted: the state then already says to give up.
    pub fn record_failure(&mut self) -> (delay_secs: u64)
        ensures
            delay_secs == RETRY_DELAY_SECS,
            old(self).failures() < MAX_ATTEMPTS ==> final(self).failures() == old(self).failures()
                + 1,
            old(self).failures() >= MAX_ATTEMPTS ==> final(self).failures() == old(
                self,
            ).failures(),
    {
        if self.failures < MAX_ATTEMPTS {
            self.failures = self.failures + 1;
        }
        RETRY_DELAY_SECS
    }
}

/// How many more attempts can fail before the client gives up.
pub open spec fn attempts_left(state: RetryState) -> nat {
    if state.failures() < MAX_ATTEMPTS {
        (MAX_ATTEMPTS - state.failures()) as nat
    } else {
        0
    }
}

/// The client gives up exactly when no attempts are left, and each failure
/// that is followed by another decision uses one up: a run of failures ends
/// after `MAX_ATTEMPTS` of them.
pub proof fn lemma_retries_are_bounded(before: RetryState, after: RetryState)
    requires
        before.failures() < MAX_ATTEMPTS,
        after.failures() == before.failures() + 1,
    ensures
        attempts_left(before) > 0,
        attempts_left(after) == attempts_left(before) - 1,
        attempts_left(after) == 0 <==> after.failures() >= MAX_ATTEMPTS,
{
}

} // verus!
