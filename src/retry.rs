//! Bounded retry with jittered linear backoff around transient setup
//! failures (opening the SEV device, starting a launch session).
//!
//! The policy decides; the caller runs the operation and sleeps:
//! ```text
//! let mut policy = RetryPolicy::new(SEV_RETRIES);
//! loop {
//!     match op() {
//!         Ok(v) => break Ok(v),
//!         Err(e) => match policy.next_delay() {
//!             Some(ms) => sleep(ms),
//!             None => break Err(e),
//!         },
//!     }
//! }
//! ```

use vstd::prelude::*;
use rand::RngCore;

verus! {

/// How many times a failed setup operation is tried again.
pub const SEV_RETRIES: u32 = 3;

/// Base delay, in milliseconds, before each further attempt.
pub const SEV_RETRY_SLEEP_MS: u64 = 500;

/// The retry budget of one operation.
#[derive(Clone, Copy, Debug, PartialEq, Eq, Structural)]
pub struct RetryPolicy {
    /// The budget the policy was created with.
    pub budget: u32,
    /// Further attempts still allowed.
    pub remaining: u32,
}

impl RetryPolicy {
    pub open spec fn wf(self) -> bool {
        self.remaining <= self.budget
    }

    pub open spec fn fresh(budget: u32) -> RetryPolicy {
        RetryPolicy { budget, remaining: budget }
    }

    /// Whether a failure seen in this state is followed by another attempt.
    pub open spec fn retries(self) -> bool {
        self.remaining > 0
    }

    /// The state after one more failure.
    pub open spec fn after_failure(self) -> RetryPolicy {
        if self.remaining > 0 {
            RetryPolicy { budget: self.budget, remaining: (self.remaining - 1) as u32 }
        } else {
            self
        }
    }

    /// The state after `i` failures in a row.
    pub open spec fn after_failures(self, i: nat) -> RetryPolicy
        decreases i,
    {
        if i == 0 {
            self
        } else {
            self.after_failures((i - 1) as nat).after_failure()
        }
    }

    /// A policy that allows `budget` further attempts.
    pub fn new(budget: u32) -> (r: RetryPolicy)
        ensures
            r == RetryPolicy::fresh(budget),
            r.wf(),
    {
        RetryPolicy { budget, remaining: budget }
    }

    /// What follows a failed attempt: `Some(delay)` in milliseconds, the base
    /// delay plus `jitter`, before another attempt; `None` when the budget is
    /// spent and the failure is final.
    pub fn on_failure(&mut self, jitter: u8) -> (r: Option<u64>)
        requires
            old(self).wf(),
        ensures
            final(self).wf(),
            *final(self) == old(self).after_failure(),
            old(self).retries() ==> r == Some((SEV_RETRY_SLEEP_MS + jitter) as u64),
            !old(self).retries() ==> r.is_none(),
    {
        if self.remaining > 0 {
            self.remaining = self.remaining - 1;
            Some(SEV_RETRY_SLEEP_MS + jitter as u64)
        } else {
            None
        }
    }

    /// [`RetryPolicy::on_failure`] with a random jitter below 256 ms, or no
    /// jitter when the operating system gives no random byte.
    pub fn next_delay(&mut self) -> (r: Option<u64>)
        requires
            old(self).wf(),
        ensures
            final(self).wf(),
            *final(self) == old(self).after_failure(),
            old(self).retries() ==> r.is_some() && SEV_RETRY_SLEEP_MS <= r.unwrap()
                <= SEV_RETRY_SLEEP_MS + 255,
            !old(self).retries() ==> r.is_none(),
    {
        let j = match try_jitter() {
            Some(b) => b,
            None => 0,
        };
        self.on_failure(j)
    }
}

/// Relies on rand's `OsRng::try_fill_bytes`: one byte from the operating
/// system's random source, or its error; nothing is known of the byte.
#[verifier::external_body]
fn try_jitter() -> (r: Option<u8>) {
    let mut b = [0u8; 1];
    match rand::rngs::OsRng.try_fill_bytes(&mut b) {
        Ok(()) => Some(b[0]),
        Err(_) => None,
    }
}

/// After `i` failures from a fresh budget `b`, with `i <= b`, `b - i`
/// attempts remain.
proof fn lemma_after_failures(budget: u32, i: nat)
    requires
        i <= budget,
    ensures
        RetryPolicy::fresh(budget).after_failures(i) == (RetryPolicy {
            budget,
            remaining: (budget - i) as u32,
        }),
    decreases i,
{
    if i > 0 {
        lemma_after_failures(budget, (i - 1) as nat);
    }
}

/// An operation that fails `k` times and then succeeds, with `k` within the
/// budget, is tried again after each of those `k` failures (one sleep each)
/// and so reaches its success.
pub proof fn lemma_retry_reaches_success(budget: u32, k: nat)
    requires
        k <= budget,
    ensures
        forall|i: nat| i < k ==> #[trigger] RetryPolicy::fresh(budget).after_failures(i).retries(),
{
    assert forall|i: nat| i < k implies #[trigger] RetryPolicy::fresh(budget).after_failures(
        i,
    ).retries() by {
        lemma_after_failures(budget, i);
    }
}

/// An operation that always fails is tried again after exactly `budget`
/// failures, each with one sleep, and its next failure is returned.
pub proof fn lemma_retry_exhausts_budget(budget: u32)
    ensures
        forall|i: nat| i < budget ==> #[trigger] RetryPolicy::fresh(budget).after_failures(
            i,
        ).retries(),
        !RetryPolicy::fresh(budget).after_failures(budget as nat).retries(),
{
    lemma_retry_reaches_success(budget, budget as nat);
    lemma_after_failures(budget, budget as nat);
}

} // verus!
