//! The cancellation broadcaster's state: a monotonic `stopped` flag, set at
//! most once and never reset. The asynchronous wake-up plumbing lives outside
//! the library; the decisions it must make (set the flag, and check the flag
//! before suspending, so that a late waiter is never missed) are verified
//! here.

use vstd::prelude::*;

verus! {

/// Shared cancellation state observed by every task: `false` until the one
/// stop request, `true` forever after.
pub struct TaskControl {
    stopped: bool,
}

/// What a waiter does after checking the cancellation state: return at once,
/// or suspend until the next broadcast wake-up.
#[derive(PartialEq, Eq, Structural, Clone, Copy, Debug)]
pub enum WaitDecision {
    Return,
    Suspend,
}

impl TaskControl {
    pub closed spec fn spec_stopped(self) -> bool {
        self.stopped
    }

    /// The one state transition the broadcaster has: whatever the state was,
    /// after a stop request it is stopped.
    pub closed spec fn spec_stop(self) -> TaskControl {
        TaskControl { stopped: true }
    }

    pub fn new() -> (r: Self)
        ensures
            !r.spec_stopped(),
    {
        TaskControl { stopped: false }
    }

    /// Request cancellation. The flag only ever moves `false -> true`.
    pub fn stop(&mut self)
        ensures
            *final(self) == old(self).spec_stop(),
            final(self).spec_stopped(),
    {
        self.stopped = true;
    }

    /// What a waiter that checks the state now must do.
    pub open spec fn spec_wait_decision(self) -> WaitDecision {
        if self.spec_stopped() {
            WaitDecision::Return
        } else {
            WaitDecision::Suspend
        }
    }

    pub fn is_stopped(&self) -> (r: bool)
        ensures
            r == self.spec_stopped(),
    {
        self.stopped
    }

    /// The race-free waiting protocol: a waiter checks the persistent flag
    /// and suspends only while it is still unset. A waiter that arrives
    /// after the stop request therefore returns without ever suspending.
    pub fn wait_step(&self) -> (d: WaitDecision)
        ensures
            d == self.spec_wait_decision(),
            d == WaitDecision::Return <==> self.spec_stopped(),
    {
        if self.stopped {
            WaitDecision::Return
        } else {
            WaitDecision::Suspend
        }
    }
}

/// Stopping is idempotent: a second stop request leaves the state exactly as
/// the first left it, still stopped.
pub proof fn lemma_stop_idempotent(c: TaskControl)
    ensures
        c.spec_stop().spec_stop() == c.spec_stop(),
        c.spec_stop().spec_stopped(),
{
}

/// A late waiter is never missed: once a stop request has happened, every
/// later check of the state decides to return rather than suspend, whatever
/// the state was before the request.
pub proof fn lemma_late_waiter_returns(c: TaskControl)
    ensures
        c.spec_stop().spec_wait_decision() == WaitDecision::Return,
{
}

} // verus!
