//! The backoff discipline for acquiring the shared clipboard.
//!
//! Only one process may hold the clipboard at a time, and other processes
//! routinely contend for it. Each acquisition bracket therefore retries on
//! contention with exponentially growing delays, and gives up once the
//! next delay would reach a fixed ceiling. The state machine here makes
//! the decisions; the event loop performs the actual acquisition attempts
//! and the sleeps between them.

use vstd::prelude::*;

verus! {

/// The delay before the first retry, in milliseconds.
pub const INITIAL_DELAY_MS: u32 = 1;

/// Once the delay reaches this many milliseconds, acquisition gives up
/// instead of retrying again.
pub const DELAY_CEILING_MS: u32 = 500;

/// What one acquisition attempt reported: success, transient contention
/// (another process holds the clipboard), or a failure that retrying
/// cannot cure.
#[derive(Clone, Copy, Debug, PartialEq, Eq, Structural)]
pub enum AcquireOutcome {
    Acquired,
    Busy,
    Failed,
}

/// What the event loop must do next: use the held clipboard, sleep this
/// many milliseconds and try again, or abort the whole operation.
#[derive(Clone, Copy, Debug, PartialEq, Eq, Structural)]
pub enum BackoffDecision {
    Proceed,
    RetryAfter(u32),
    GiveUp,
}

/// The state of one acquisition bracket: how many milliseconds the next
/// contention will cost before the following attempt.
#[derive(Debug)]
pub struct Backoff {
    delay: u32,
}

impl View for Backoff {
    type V = u32;

    closed spec fn view(&self) -> u32 {
        self.delay
    }
}

impl Backoff {
    /// A fresh bracket: the first contention will cost the initial delay.
    pub fn new() -> (r: Self)
        ensures
            r@ == INITIAL_DELAY_MS,
    {
        Backoff { delay: INITIAL_DELAY_MS }
    }

    /// Advance the bracket by one attempt's outcome. Success proceeds;
    /// contention asks for a sleep of the current delay and doubles it for
    /// the next time; a non-transient failure, or contention after the
    /// delay has reached the ceiling, gives up.
    pub fn step(&mut self, outcome: AcquireOutcome) -> (d: BackoffDecision)
        ensures
            outcome == AcquireOutcome::Acquired ==> d == BackoffDecision::Proceed && final(self)@
                == old(self)@,
            outcome == AcquireOutcome::Failed ==> d == BackoffDecision::GiveUp && final(self)@
                == old(self)@,
            outcome == AcquireOutcome::Busy && old(self)@ >= DELAY_CEILING_MS ==> d
                == BackoffDecision::GiveUp && final(self)@ == old(self)@,
            outcome == AcquireOutcome::Busy && old(self)@ < DELAY_CEILING_MS ==> d
                == BackoffDecision::RetryAfter(old(self)@) && final(self)@ == 2 * old(self)@,
    {
        match outcome {
            AcquireOutcome::Acquired => BackoffDecision::Proceed,
            AcquireOutcome::Failed => BackoffDecision::GiveUp,
            AcquireOutcome::Busy => {
                if self.delay >= DELAY_CEILING_MS {
                    BackoffDecision::GiveUp
                } else {
                    let d = self.delay;
                    self.delay = d * 2;
                    BackoffDecision::RetryAfter(d)
                }
            },
        }
    }
}

/// The delays a bracket announces when every attempt reports contention,
/// starting from delay `d`: the delay doubles after each announcement and
/// the run ends — the bracket gives up — once it reaches the ceiling.
pub open spec fn busy_retry_delays(d: int) -> Seq<int>
    decreases (if d < DELAY_CEILING_MS { DELAY_CEILING_MS - d } else { 0int }),
        when 1 <= d
{
    if d >= DELAY_CEILING_MS {
        Seq::empty()
    } else {
        seq![d] + busy_retry_delays(2 * d)
    }
}

/// Backoff exhaustion: under unrelieved contention the announced delays
/// grow strictly from the starting delay, each one stays below the
/// ceiling, and the run is finite, ending in the bracket giving up.
pub proof fn lemma_busy_delays_increase(d: int)
    requires
        1 <= d,
    ensures
        forall|i: int, j: int|
            0 <= i < j < busy_retry_delays(d).len() ==> busy_retry_delays(d)[i]
                < busy_retry_delays(d)[j],
        forall|i: int|
            0 <= i < busy_retry_delays(d).len() ==> d <= #[trigger] busy_retry_delays(d)[i]
                < DELAY_CEILING_MS,
    decreases (if d < DELAY_CEILING_MS { DELAY_CEILING_MS - d } else { 0int }),
{
    if d < DELAY_CEILING_MS {
        lemma_busy_delays_increase(2 * d);
        let s = busy_retry_delays(d);
        let t = busy_retry_delays(2 * d);
        assert(s[0] == d);
        assert(forall|i: int| 1 <= i < s.len() ==> s[i] == t[i - 1]);
        assert forall|i: int| 0 <= i < s.len() implies d <= #[trigger] s[i] < DELAY_CEILING_MS by {
            if i >= 1 {
                assert(t[i - 1] >= 2 * d);
            }
        }
        assert forall|i: int, j: int| 0 <= i < j < s.len() implies s[i] < s[j] by {
            if i >= 1 {
                assert(t[i - 1] < t[j - 1]);
            } else {
                assert(t[j - 1] >= 2 * d);
            }
        }
    }
}

} // verus!
