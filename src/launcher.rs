//! The retrying launcher: runs a command up to a given number of times, with
//! a fixed pause after each failed attempt but the last. Spawning, waiting
//! and pausing happen outside; each attempt's outcome is handed in, and the
//! launcher answers what to do next.
use vstd::prelude::*;

verus! {

/// The pause between two attempts, in milliseconds.
pub const BACKOFF_MS: u64 = 2000;

/// How one attempt ended.
#[derive(Debug, PartialEq, Eq)]
pub enum Attempt {
    /// the process could not be created
    SpawnFailed(String),
    /// the process ran and exited with this code
    Exited(i32),
    /// the process ran, but waiting for it failed
    WaitFailed,
}

#[derive(Debug, PartialEq, Eq, Structural)]
pub enum LaunchError {
    /// every attempt failed
    ExhaustedRetries,
}

/// What to do after an attempt.
#[derive(Debug, PartialEq, Eq, Structural)]
pub enum LaunchAction {
    /// pause this many milliseconds, then try again
    Retry { backoff_ms: u64 },
    /// the attempt succeeded: keep its process
    Accept,
    /// stop: the command could not be run
    GiveUp(LaunchError),
}

/// A retry after the fixed pause.
pub open spec fn retry_after_pause() -> LaunchAction {
    LaunchAction::Retry { backoff_ms: BACKOFF_MS }
}

/// An attempt succeeds when its process ran and exited with code `0`.
pub open spec fn succeeded(a: Attempt) -> bool {
    a == Attempt::Exited(0)
}

/// The answer to the attempt that brings the count to `made`, out of `max`.
pub open spec fn action_after(made: nat, max: nat, success: bool) -> LaunchAction {
    if success {
        LaunchAction::Accept
    } else if made < max {
        LaunchAction::Retry { backoff_ms: BACKOFF_MS }
    } else {
        LaunchAction::GiveUp(LaunchError::ExhaustedRetries)
    }
}

/// The answers to `k` failed attempts in a row, from the first.
pub open spec fn failure_run(max: nat, k: nat) -> Seq<LaunchAction>
    decreases k,
{
    if k == 0 {
        Seq::empty()
    } else {
        failure_run(max, (k - 1) as nat).push(action_after(k, max, false))
    }
}

/// When every attempt fails, the launcher answers the first `max - 1` of them
/// with a retry after the fixed pause, and the last with `ExhaustedRetries`:
/// exactly `max` attempts, with a pause between two of them and none after
/// the last.
pub proof fn lemma_failures_exhaust(max: nat)
    requires
        max >= 1,
    ensures
        failure_run(max, max) == Seq::new((max - 1) as nat, |i: int| retry_after_pause()).push(
            LaunchAction::GiveUp(LaunchError::ExhaustedRetries),
        ),
{
    lemma_failure_run_prefix(max, (max - 1) as nat);
    assert(failure_run(max, (max - 1) as nat) =~= Seq::new((max - 1) as nat, |i: int| retry_after_pause()));
}

proof fn lemma_failure_run_prefix(max: nat, k: nat)
    requires
        k < max,
    ensures
        failure_run(max, k).len() == k,
        forall|i: int| 0 <= i < k ==> #[trigger] failure_run(max, k)[i] == retry_after_pause(),
    decreases k,
{
    if k > 0 {
        lemma_failure_run_prefix(max, (k - 1) as nat);
    }
}

/// The count of attempts made for one launch, out of a maximum.
#[derive(Debug)]
pub struct Launcher {
    max_attempts: usize,
    attempts: usize,
}

impl Launcher {
    pub closed spec fn spec_max(&self) -> nat {
        self.max_attempts as nat
    }

    pub closed spec fn spec_attempts(&self) -> nat {
        self.attempts as nat
    }

    pub fn new(max_attempts: usize) -> (r: Launcher)
        ensures
            r.spec_max() == max_attempts,
            r.spec_attempts() == 0,
    {
        Launcher { max_attempts, attempts: 0 }
    }

    /// The attempts made so far.
    pub fn attempts(&self) -> (r: usize)
        ensures
            r == self.spec_attempts(),
    {
        self.attempts
    }

    /// Whether no attempt is left.
    pub fn exhausted(&self) -> (r: bool)
        ensures
            r == (self.spec_attempts() >= self.spec_max()),
    {
        self.attempts >= self.max_attempts
    }

    /// Counts an attempt and answers what comes next. Once no attempt is
    /// left, the answer is `ExhaustedRetries` and nothing is counted.
    pub fn record(&mut self, outcome: &Attempt) -> (r: LaunchAction)
        ensures
            final(self).spec_max() == old(self).spec_max(),
            old(self).spec_attempts() < old(self).spec_max() ==> {
                &&& final(self).spec_attempts() == old(self).spec_attempts() + 1
                &&& r == action_after(final(self).spec_attempts(), final(self).spec_max(), succeeded(*outcome))
            },
            old(self).spec_attempts() >= old(self).spec_max() ==> {
                &&& final(self).spec_attempts() == old(self).spec_attempts()
                &&& r == LaunchAction::GiveUp(LaunchError::ExhaustedRetries)
            },
    {
        if self.attempts >= self.max_attempts {
            return LaunchAction::GiveUp(LaunchError::ExhaustedRetries);
        }
        self.attempts = self.attempts + 1;
        let ok = match outcome {
            Attempt::Exited(code) => *code == 0,
            _ => false,
        };
        if ok {
            LaunchAction::Accept
        } else if self.attempts < self.max_attempts {
            LaunchAction::Retry { backoff_ms: BACKOFF_MS }
        } else {
            LaunchAction::GiveUp(LaunchError::ExhaustedRetries)
        }
    }
}

} // verus!
