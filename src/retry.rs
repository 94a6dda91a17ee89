//! The retry coordinator: what to do after each failed reconciliation
//! attempt. Attempts are bounded by a fixed count; the wait before each new
//! attempt starts at a base delay and doubles (saturating) every time.
use vstd::prelude::*;

verus! {

/// The bound on attempts and the first backoff delay, in milliseconds.
#[derive(Clone, Copy, Debug, PartialEq, Eq, Structural)]
pub struct RetryPolicy {
    /// Attempts made at most, the first one included (one is always made).
    pub max_attempts: u32,
    pub base_delay_ms: u64,
}

/// What follows a failed attempt.
#[derive(Clone, Copy, Debug, PartialEq, Eq, Structural)]
pub enum RetryDecision {
    /// Wait this long, then attempt again.
    Retry { delay_ms: u64 },
    /// The attempts are used up: report the last error.
    GiveUp,
}

/// `d` doubled, saturating at the largest `u64`.
pub open spec fn doubled(d: u64) -> u64 {
    if d + d > u64::MAX {
        u64::MAX
    } else {
        (d + d) as u64
    }
}

/// The wait before retry number `k + 1`: `base` doubled `k` times.
pub open spec fn backoff_delay(base: u64, k: nat) -> u64
    decreases k,
{
    if k == 0 {
        base
    } else {
        doubled(backoff_delay(base, (k - 1) as nat))
    }
}

/// The decision after `failures` failed attempts in a row (`failures >= 1`).
pub open spec fn decision_after(policy: RetryPolicy, failures: nat) -> RetryDecision {
    if failures < policy.max_attempts {
        RetryDecision::Retry { delay_ms: backoff_delay(policy.base_delay_ms, (failures - 1) as nat) }
    } else {
        RetryDecision::GiveUp
    }
}

/// The state of one reconciliation under retry.
#[derive(Clone, Copy, Debug)]
pub struct RetryCoordinator {
    policy: RetryPolicy,
    failures: u32,
    next_delay_ms: u64,
}

impl RetryCoordinator {
    pub closed spec fn policy_spec(self) -> RetryPolicy {
        self.policy
    }

    /// Failed attempts counted so far.
    pub closed spec fn failures_spec(self) -> nat {
        self.failures as nat
    }

    pub closed spec fn wf(self) -> bool {
        self.next_delay_ms == backoff_delay(self.policy.base_delay_ms, self.failures as nat)
    }

    /// A coordinator before the first attempt.
    pub fn new(policy: RetryPolicy) -> (r: RetryCoordinator)
        ensures
            r.wf(),
            r.policy_spec() == policy,
            r.failures_spec() == 0,
    {
        RetryCoordinator { policy, failures: 0, next_delay_ms: policy.base_delay_ms }
    }

    pub fn policy(&self) -> (r: RetryPolicy)
        ensures
            r == self.policy_spec(),
    {
        self.policy
    }

    pub fn failures(&self) -> (r: u32)
        ensures
            r == self.failures_spec(),
    {
        self.failures
    }

    /// Records that the attempt just made failed, and decides what follows:
    /// another attempt after the backoff delay while fewer than the allowed
    /// attempts have been made, giving up once they all have.
    pub fn on_failure(&mut self) -> (r: RetryDecision)
        requires
            old(self).wf(),
        ensures
            final(self).wf(),
            final(self).policy_spec() == old(self).policy_spec(),
            r == decision_after(old(self).policy_spec(), old(self).failures_spec() + 1),
            final(self).failures_spec() == if old(self).failures_spec() < u32::MAX {
                old(self).failures_spec() + 1
            } else {
                old(self).failures_spec()
            },
    {
        let delay = self.next_delay_ms;
        let given_up = self.failures >= self.policy.max_attempts || self.policy.max_attempts
            - self.failures <= 1;
        if self.failures < u32::MAX {
            self.failures = self.failures + 1;
            self.next_delay_ms = delay.saturating_add(delay);
        }
        if given_up {
            RetryDecision::GiveUp
        } else {
            RetryDecision::Retry { delay_ms: delay }
        }
    }
}

proof fn lemma_backoff_monotone(base: u64, j: nat, k: nat)
    requires
        j <= k,
    ensures
        backoff_delay(base, j) <= backoff_delay(base, k),
    decreases k,
{
    if j < k {
        lemma_backoff_monotone(base, j, (k - 1) as nat);
    }
}

/// When every attempt fails, the coordinator retries after each of the first
/// `max_attempts - 1` failures and gives up at failure number
/// `max_attempts`, and the delays between attempts never decrease.
pub proof fn lemma_retry_bound(policy: RetryPolicy)
    requires
        policy.max_attempts >= 1,
    ensures
        forall|k: nat| 1 <= k < policy.max_attempts ==> #[trigger] decision_after(policy, k) is Retry,
        decision_after(policy, policy.max_attempts as nat) is GiveUp,
        forall|j: nat, k: nat|
            1 <= j <= k < policy.max_attempts ==> (#[trigger] decision_after(policy, j))->delay_ms
                <= (#[trigger] decision_after(policy, k))->delay_ms,
{
    assert forall|j: nat, k: nat| 1 <= j <= k < policy.max_attempts implies (#[trigger] decision_after(
        policy,
        j,
    ))->delay_ms <= (#[trigger] decision_after(policy, k))->delay_ms by {
        lemma_backoff_monotone(policy.base_delay_ms, (j - 1) as nat, (k - 1) as nat);
    }
}

} // verus!
