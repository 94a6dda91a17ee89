//! The monitor: the change detector and the retry coordinator joined in one
//! state machine. Events are handled one at a time; while a reconciliation
//! is in flight no event is taken, so at most one is outstanding and they
//! complete in the order their addresses were observed. The caller performs
//! each action returned and reports back the outcome of every attempt.
use vstd::prelude::*;

use crate::detector::{step, ChangeDetector};
use crate::event::AddressEvent;
use crate::retry::{decision_after, RetryCoordinator, RetryDecision, RetryPolicy};

verus! {

/// What the caller is to do next.
#[derive(Clone, Copy, Debug, PartialEq, Eq, Structural)]
pub enum MonitorAction {
    /// Nothing: wait for the next event.
    Ignore,
    /// Make the first attempt to reconcile the record with `address`.
    Attempt { address: u128 },
    /// Wait `delay_ms` milliseconds, then attempt `address` again.
    RetryAfter { address: u128, delay_ms: u64 },
    /// The record now holds `address`; wait for the next event.
    Done { address: u128 },
    /// Every attempt for `address` failed; wait for the next event.
    Failed { address: u128 },
}

pub struct Monitor {
    detector: ChangeDetector,
    policy: RetryPolicy,
    pending: Option<(u128, RetryCoordinator)>,
}

impl Monitor {
    pub closed spec fn detector_spec(self) -> ChangeDetector {
        self.detector
    }

    pub closed spec fn policy_spec(self) -> RetryPolicy {
        self.policy
    }

    /// The address whose reconciliation is in flight, if any.
    pub closed spec fn in_flight(self) -> Option<u128> {
        match self.pending {
            Some((a, _)) => Some(a),
            None => None,
        }
    }

    /// Failed attempts of the reconciliation in flight.
    pub closed spec fn failures_spec(self) -> nat {
        match self.pending {
            Some((_, c)) => c.failures_spec(),
            None => 0,
        }
    }

    pub closed spec fn wf(self) -> bool {
        match self.pending {
            Some((a, c)) => {
                &&& c.wf()
                &&& c.policy_spec() == self.policy
                &&& self.detector.current_address() == Some(a)
            },
            None => true,
        }
    }

    /// A monitor of interface `monitored` that knows no address yet.
    pub fn new(monitored: u32, policy: RetryPolicy) -> (r: Monitor)
        ensures
            r.wf(),
            r.detector_spec().monitored_index() == monitored,
            r.detector_spec().current_address() == None::<u128>,
            r.policy_spec() == policy,
            r.in_flight() == None::<u128>,
    {
        Monitor { detector: ChangeDetector::new(monitored), policy, pending: None }
    }

    /// The last address for which a reconciliation was initiated.
    pub fn current(&self) -> (r: Option<u128>)
        ensures
            r == self.detector_spec().current_address(),
    {
        self.detector.current()
    }

    /// A reconciliation is in flight: no event may be handed in until it is
    /// done.
    pub fn is_busy(&self) -> (r: bool)
        ensures
            r == (self.in_flight() is Some),
    {
        self.pending.is_some()
    }

    /// Handles one event while no reconciliation is in flight: a genuine
    /// change starts one (the address is recorded as current at once),
    /// anything else is ignored.
    pub fn on_event(&mut self, e: &AddressEvent) -> (r: MonitorAction)
        requires
            old(self).wf(),
            old(self).in_flight() is None,
        ensures
            final(self).wf(),
            final(self).policy_spec() == old(self).policy_spec(),
            final(self).detector_spec().monitored_index() == old(
                self,
            ).detector_spec().monitored_index(),
            ({
                let (next, trigger) = step(
                    old(self).detector_spec().current_address(),
                    *e,
                    old(self).detector_spec().monitored_index(),
                );
                &&& final(self).detector_spec().current_address() == next
                &&& final(self).in_flight() == trigger
                &&& final(self).failures_spec() == 0
                &&& r == match trigger {
                    Some(a) => MonitorAction::Attempt { address: a },
                    None => MonitorAction::Ignore,
                }
            }),
    {
        match self.detector.observe(e) {
            Some(a) => {
                self.pending = Some((a, RetryCoordinator::new(self.policy)));
                MonitorAction::Attempt { address: a }
            },
            None => MonitorAction::Ignore,
        }
    }

    /// The attempt in flight succeeded: the reconciliation is done.
    pub fn on_attempt_succeeded(&mut self) -> (r: MonitorAction)
        requires
            old(self).wf(),
            old(self).in_flight() is Some,
        ensures
            final(self).wf(),
            final(self).policy_spec() == old(self).policy_spec(),
            final(self).detector_spec() == old(self).detector_spec(),
            final(self).in_flight() == None::<u128>,
            r == (MonitorAction::Done { address: old(self).in_flight()->0 }),
    {
        let (a, _) = self.pending.unwrap();
        self.pending = None;
        MonitorAction::Done { address: a }
    }

    /// The attempt in flight failed: retry after the backoff delay while
    /// attempts remain, otherwise give the address up. The address stays
    /// current either way.
    pub fn on_attempt_failed(&mut self) -> (r: MonitorAction)
        requires
            old(self).wf(),
            old(self).in_flight() is Some,
        ensures
            final(self).wf(),
            final(self).policy_spec() == old(self).policy_spec(),
            final(self).detector_spec() == old(self).detector_spec(),
            ({
                let a = old(self).in_flight()->0;
                match decision_after(old(self).policy_spec(), old(self).failures_spec() + 1) {
                    RetryDecision::Retry { delay_ms } => {
                        &&& r == (MonitorAction::RetryAfter { address: a, delay_ms })
                        &&& final(self).in_flight() == Some(a)
                        &&& final(self).failures_spec() == old(self).failures_spec() + 1
                    },
                    RetryDecision::GiveUp => {
                        &&& r == (MonitorAction::Failed { address: a })
                        &&& final(self).in_flight() == None::<u128>
                    },
                }
            }),
    {
        let (a, mut c) = self.pending.unwrap();
        match c.on_failure() {
            RetryDecision::Retry { delay_ms } => {
                self.pending = Some((a, c));
                MonitorAction::RetryAfter { address: a, delay_ms }
            },
            RetryDecision::GiveUp => {
                self.pending = None;
                MonitorAction::Failed { address: a }
            },
        }
    }
}

} // verus!
