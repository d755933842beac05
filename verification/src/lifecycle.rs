//! The decision core of deferred attach-time initialization: a bounded
//! readiness poll in place of a fixed startup sleep. The waiting itself —
//! the thread, the delay, the readiness probe — belongs to the host-side
//! shell; what to do after each probe is decided here.

use vstd::prelude::*;

verus! {

/// What the poller decides after one readiness probe.
#[derive(Clone, Copy, PartialEq, Eq, Structural, Debug)]
pub enum PollDecision {
    /// The host is ready: run the deferred work now.
    Proceed,
    /// Not ready yet: wait one delay and probe again.
    WaitAndRetry,
    /// The attempts are exhausted: report a timeout instead of waiting
    /// forever on a host that never becomes ready.
    GiveUp,
}

/// A bounded readiness poll: at most the configured number of unready
/// probes are retried before the poll gives up.
pub struct ReadinessPoll {
    attempts_left: u32,
}

impl ReadinessPoll {
    /// How many unready probes may still be retried.
    pub closed spec fn attempts_left(self) -> u32 {
        self.attempts_left
    }

    /// A poll that will retry up to `max_attempts` unready probes.
    pub fn new(max_attempts: u32) -> (r: ReadinessPoll)
        ensures
            r.attempts_left() == max_attempts,
    {
        ReadinessPoll { attempts_left: max_attempts }
    }

    /// Decides on one probe's outcome: a ready host proceeds at once; an
    /// unready one is retried while attempts remain, and otherwise the
    /// poll gives up — it never waits without spending an attempt.
    pub fn step(&mut self, ready: bool) -> (d: PollDecision)
        ensures
            ready ==> d == PollDecision::Proceed && *final(self) == *old(self),
            !ready && old(self).attempts_left() > 0 ==> d == PollDecision::WaitAndRetry
                && final(self).attempts_left() == old(self).attempts_left() - 1,
            !ready && old(self).attempts_left() == 0 ==> d == PollDecision::GiveUp && *final(self)
                == *old(self),
    {
        if ready {
            PollDecision::Proceed
        } else if self.attempts_left > 0 {
            self.attempts_left = self.attempts_left - 1;
            PollDecision::WaitAndRetry
        } else {
            PollDecision::GiveUp
        }
    }
}

} // verus!
