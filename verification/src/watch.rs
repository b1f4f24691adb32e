//! The decision core of the watch session and its resilience wrapper.
//!
//! The wrapper turns a connection that can terminate at any time into
//! a logically infinite, self-healing event sequence: every successful
//! (re)connect first surfaces the full listing as a single `Restarted`
//! event, so downstream state is reconciled to ground truth rather
//! than assumed continuous, and every terminal error is answered with
//! a capped, non-decreasing reconnect delay. The loop that owns the
//! network connection performs the actions and reports the outcomes;
//! every decision is made here.

use vstd::prelude::*;
use crate::backoff::{Backoff, BackoffPolicy};
use crate::event::Event;
use crate::object::Object;

verus! {

/// What the connection loop reports: a session opened and listed the
/// current objects, the open session delivered one incremental event,
/// or the session terminated after staying healthy this long
/// (a network failure, a timeout, or a checkpoint expiry — all are
/// retried alike, indefinitely).
#[derive(Debug, PartialEq, Eq)]
pub enum WatchInput {
    Connected(Vec<Object>),
    Received(Event),
    Failed(u64),
}

/// What the connection loop must do next: hand one event downstream,
/// or wait the given delay in milliseconds and then open a new
/// session.
#[derive(Debug, PartialEq, Eq)]
pub enum WatchAction {
    Emit(Event),
    Reconnect(u64),
}

/// The state of the resilience wrapper: the backoff schedule and
/// whether a session is currently open.
#[derive(Debug, Clone, Copy, PartialEq, Eq, Structural)]
pub struct WatchEngine {
    pub backoff: Backoff,
    pub connected: bool,
}

impl WatchEngine {
    /// The engine's backoff state is on its schedule.
    pub open spec fn wf(self) -> bool {
        self.backoff.wf()
    }

    /// A fresh engine, not yet connected, with its backoff at the
    /// initial delay.
    pub fn new(policy: BackoffPolicy) -> (e: WatchEngine)
        requires
            policy.wf(),
        ensures
            e.wf(),
            e.backoff.policy == policy,
            e.backoff.current_ms == policy.initial_ms,
            !e.connected,
    {
        WatchEngine { backoff: Backoff::new(policy), connected: false }
    }

    /// One decision step of the self-healing sequence:
    /// - a successful (re)connect is answered with the `Restarted`
    ///   event carrying the fresh listing, before anything else, so no
    ///   event is silently dropped across a reconnect;
    /// - an incremental event passes through unchanged;
    /// - a terminal error first rearms the backoff when the connection
    ///   stayed healthy past the reset threshold, then schedules a
    ///   reconnect after the pending delay and advances the schedule.
    pub fn step(&mut self, input: WatchInput) -> (a: WatchAction)
        requires
            old(self).wf(),
        ensures
            final(self).wf(),
            final(self).backoff.policy == old(self).backoff.policy,
            match input {
                WatchInput::Connected(l) => a == WatchAction::Emit(Event::Restarted(l))
                    && final(self).connected && final(self).backoff == old(self).backoff,
                WatchInput::Received(e) => a == WatchAction::Emit(e) && *final(self) == *old(self),
                WatchInput::Failed(healthy_for_ms) => ({
                    let rearmed = if healthy_for_ms >= old(self).backoff.policy.reset_after_ms {
                        old(self).backoff.policy.initial_ms
                    } else {
                        old(self).backoff.current_ms
                    };
                    &&& a == WatchAction::Reconnect(rearmed)
                    &&& final(self).backoff.current_ms == old(self).backoff.policy.next_ms(rearmed)
                    &&& !final(self).connected
                }),
            },
    {
        match input {
            WatchInput::Connected(list) => {
                self.connected = true;
                WatchAction::Emit(Event::Restarted(list))
            },
            WatchInput::Received(e) => WatchAction::Emit(e),
            WatchInput::Failed(healthy_for_ms) => {
                self.connected = false;
                self.backoff.note_healthy(healthy_for_ms);
                let d = self.backoff.next_delay();
                WatchAction::Reconnect(d)
            },
        }
    }
}

} // verus!
