//! The deterministic reconnect backoff schedule of the resilience
//! wrapper: an exponential delay with a fixed jitter offset and a hard
//! cap, reset to its initial value once a connection has stayed
//! healthy past a threshold. Every parameter is a tunable, and the
//! schedule is a pure function of them, so runs are reproducible.

use vstd::prelude::*;

verus! {

/// The tunable parameters of the backoff schedule. The schedule never
/// gives up: retries continue indefinitely, only the delay between
/// them is governed here.
#[derive(Debug, Clone, Copy, PartialEq, Eq, Structural)]
pub struct BackoffPolicy {
    /// The delay before the first reconnect, in milliseconds.
    pub initial_ms: u64,
    /// Each failure multiplies the delay by this factor.
    pub multiplier: u64,
    /// A fixed offset added at each step, before the cap.
    pub jitter_ms: u64,
    /// No delay ever exceeds this cap.
    pub max_ms: u64,
    /// A connection healthy at least this long resets the delay.
    pub reset_after_ms: u64,
}

impl BackoffPolicy {
    /// A usable schedule: the delay grows and starts within the cap.
    pub open spec fn wf(self) -> bool {
        &&& 1 <= self.multiplier
        &&& self.initial_ms <= self.max_ms
    }

    /// The delay that follows `current` in the schedule: scaled by the
    /// multiplier, offset by the jitter, and capped.
    pub open spec fn next_ms(self, current: u64) -> u64 {
        if current * self.multiplier + self.jitter_ms >= self.max_ms {
            self.max_ms
        } else {
            (current * self.multiplier + self.jitter_ms) as u64
        }
    }

    /// The delay before the reconnect that follows `n` consecutive
    /// failures.
    pub open spec fn nth_delay_ms(self, n: nat) -> u64
        decreases n,
    {
        if n == 0 {
            self.initial_ms
        } else {
            self.next_ms(self.nth_delay_ms((n - 1) as nat))
        }
    }

    /// One step of the schedule never decreases a delay that is within
    /// the cap, and never leaves the cap.
    pub proof fn lemma_next_within(self, current: u64)
        requires
            self.wf(),
            current <= self.max_ms,
        ensures
            current <= self.next_ms(current) <= self.max_ms,
    {
        assert(current * self.multiplier >= current) by (nonlinear_arith)
            requires
                self.multiplier >= 1,
                current >= 0,
        ;
    }

    /// Under consecutive failures the reconnect delay is non-decreasing
    /// and stays between the initial value and the cap.
    pub proof fn lemma_schedule_monotone(self, n: nat)
        requires
            self.wf(),
        ensures
            self.initial_ms <= self.nth_delay_ms(n) <= self.max_ms,
            self.nth_delay_ms(n) <= self.nth_delay_ms(n + 1),
        decreases n,
    {
        if n == 0 {
            self.lemma_next_within(self.initial_ms);
        } else {
            self.lemma_schedule_monotone((n - 1) as nat);
            self.lemma_next_within(self.nth_delay_ms((n - 1) as nat));
            self.lemma_next_within(self.nth_delay_ms(n));
        }
    }
}

/// The backoff state carried across reconnects: the schedule and the
/// delay the next failure will incur.
#[derive(Debug, Clone, Copy, PartialEq, Eq, Structural)]
pub struct Backoff {
    pub policy: BackoffPolicy,
    pub current_ms: u64,
}

impl Backoff {
    /// The state is on its schedule: the pending delay lies between
    /// the initial value and the cap.
    pub open spec fn wf(self) -> bool {
        &&& self.policy.wf()
        &&& self.policy.initial_ms <= self.current_ms <= self.policy.max_ms
    }

    /// A fresh backoff, starting at the initial delay.
    pub fn new(policy: BackoffPolicy) -> (b: Backoff)
        requires
            policy.wf(),
        ensures
            b.wf(),
            b.policy == policy,
            b.current_ms == policy.initial_ms,
    {
        Backoff { policy, current_ms: policy.initial_ms }
    }

    /// Returns the delay to wait before the next reconnect and
    /// advances the schedule; the pending delay never decreases.
    pub fn next_delay(&mut self) -> (d: u64)
        requires
            old(self).wf(),
        ensures
            final(self).wf(),
            final(self).policy == old(self).policy,
            d == old(self).current_ms,
            final(self).current_ms == old(self).policy.next_ms(old(self).current_ms),
            final(self).current_ms >= old(self).current_ms,
    {
        let d = self.current_ms;
        let p = self.policy;
        let next: u64 = match d.checked_mul(p.multiplier) {
            Some(scaled) => match scaled.checked_add(p.jitter_ms) {
                Some(bumped) => if bumped > p.max_ms {
                    p.max_ms
                } else {
                    bumped
                },
                None => p.max_ms,
            },
            None => p.max_ms,
        };
        proof {
            self.policy.lemma_next_within(d);
        }
        self.current_ms = next;
        d
    }

    /// Notes how long the last connection stayed healthy: past the
    /// reset threshold the pending delay returns to its initial value,
    /// so backoff state does not grow across isolated blips.
    pub fn note_healthy(&mut self, healthy_for_ms: u64)
        requires
            old(self).wf(),
        ensures
            final(self).wf(),
            final(self).policy == old(self).policy,
            healthy_for_ms >= old(self).policy.reset_after_ms ==> final(self).current_ms == old(
                self,
            ).policy.initial_ms,
            healthy_for_ms < old(self).policy.reset_after_ms ==> final(self).current_ms == old(
                self,
            ).current_ms,
    {
        if healthy_for_ms >= self.policy.reset_after_ms {
            self.current_ms = self.policy.initial_ms;
        }
    }
}

} // verus!
