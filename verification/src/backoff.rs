//! Reconnect pacing: a doubling delay with a cap and a reset point.

use vstd::prelude::*;

verus! {

/// Delay policy for reconnection attempts, in milliseconds. Each call of
/// `next_delay` returns the current delay and doubles the stored one, capped
/// at `max_ms`; `reset` returns the stored delay to `base_ms`.
pub struct Backoff {
    pub base_ms: u64,
    pub max_ms: u64,
    pub current_ms: u64,
}

/// Well-formedness: the stored delay stays between base and cap, and the cap
/// is small enough that doubling never overflows.
pub open spec fn backoff_wf(b: Backoff) -> bool {
    &&& b.base_ms <= b.current_ms
    &&& b.current_ms <= b.max_ms
    &&& b.max_ms <= u64::MAX / 2
}

/// The delay the next `next_delay` call returns.
pub open spec fn spec_next_delay(b: Backoff) -> u64 {
    b.current_ms
}

/// The policy's state after one `next_delay` call.
pub open spec fn spec_after_delay(b: Backoff) -> Backoff {
    Backoff {
        current_ms: if 2 * b.current_ms <= b.max_ms {
            (2 * b.current_ms) as u64
        } else {
            b.max_ms
        },
        ..b
    }
}

/// The policy's state after a `reset` call.
pub open spec fn spec_reset(b: Backoff) -> Backoff {
    Backoff { current_ms: b.base_ms, ..b }
}

impl Backoff {
    pub fn new(base_ms: u64, max_ms: u64) -> (b: Backoff)
        requires
            base_ms <= max_ms,
            max_ms <= u64::MAX / 2,
        ensures
            b.base_ms == base_ms,
            b.max_ms == max_ms,
            b.current_ms == base_ms,
            backoff_wf(b),
    {
        Backoff { base_ms, max_ms, current_ms: base_ms }
    }

    pub fn reset(&mut self)
        requires
            backoff_wf(*old(self)),
        ensures
            *final(self) == spec_reset(*old(self)),
            backoff_wf(*final(self)),
    {
        self.current_ms = self.base_ms;
    }

    pub fn next_delay(&mut self) -> (delay: u64)
        requires
            backoff_wf(*old(self)),
        ensures
            delay == spec_next_delay(*old(self)),
            *final(self) == spec_after_delay(*old(self)),
            backoff_wf(*final(self)),
            delay <= old(self).max_ms,
            spec_next_delay(*final(self)) >= delay,
    {
        let delay = self.current_ms;
        let doubled = self.current_ms * 2;
        self.current_ms = if doubled <= self.max_ms {
            doubled
        } else {
            self.max_ms
        };
        delay
    }
}

/// Backoff law: without a reset, successive delays never decrease and never
/// exceed the configured maximum, and a reset makes the next delay the base
/// value again.
pub proof fn lemma_backoff_monotone(b: Backoff)
    requires
        backoff_wf(b),
    ensures
        spec_next_delay(b) <= b.max_ms,
        spec_next_delay(b) <= spec_next_delay(spec_after_delay(b)),
        backoff_wf(spec_after_delay(b)),
        spec_next_delay(spec_reset(b)) == b.base_ms,
        backoff_wf(spec_reset(b)),
{
}

} // verus!
