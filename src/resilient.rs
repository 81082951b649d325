use vstd::prelude::*;

verus! {

/// `2` to the power `n`.
pub open spec fn pow2(n: nat) -> nat
    decreases n,
{
    if n == 0 {
        1
    } else {
        2 * pow2((n - 1) as nat)
    }
}

/// `x`, or `u64::MAX` when it is larger.
pub open spec fn saturate(x: int) -> u64 {
    if x > u64::MAX {
        u64::MAX
    } else {
        x as u64
    }
}

/// What to do after a failed call.
pub enum RetryDecision {
    /// Wait this many milliseconds, then call again.
    Retry(u64),
    /// Surface the last error.
    GiveUp,
}

/// Exponential backoff with jitter around one text-generation call.
pub struct RetryPolicy {
    pub max_retries: u32,
    pub base_delay_ms: u64,
}

/// The delay after the `failures`-th failure: the base delay doubled for each earlier
/// failure, plus the jitter; at most `u64::MAX`.
pub open spec fn backoff_ms(base_ms: u64, failures: nat, jitter_ms: u64) -> u64 {
    saturate(base_ms * pow2((failures - 1) as nat) + jitter_ms)
}

impl RetryPolicy {
    /// Five retries after a first attempt, from a base delay of two seconds.
    pub fn new() -> (r: RetryPolicy)
        ensures
            r.max_retries == 5,
            r.base_delay_ms == 2000,
    {
        RetryPolicy { max_retries: 5, base_delay_ms: 2000 }
    }

    /// The decision after `failures` failed attempts in a row (at least one): retry after
    /// the backoff delay while `failures <= max_retries`, give up after that. Every kind
    /// of failure is treated alike.
    pub fn after_failure(&self, failures: u32, jitter_ms: u64) -> (r: RetryDecision)
        requires
            failures >= 1,
        ensures
            failures > self.max_retries ==> r is GiveUp,
            failures <= self.max_retries ==> r == RetryDecision::Retry(
                backoff_ms(self.base_delay_ms, failures as nat, jitter_ms),
            ),
    {
        if failures > self.max_retries {
            return RetryDecision::GiveUp;
        }
        let mut delay: u64 = self.base_delay_ms;
        let mut k: u32 = 1;
        assert(pow2(0) == 1);
        assert((k - 1) as nat == 0nat);
        assert(self.base_delay_ms * pow2((k - 1) as nat) == self.base_delay_ms) by (nonlinear_arith)
            requires
                pow2((k - 1) as nat) == 1,
        ;
        while k < failures
            invariant
                1 <= k <= failures,
                delay == saturate(self.base_delay_ms * pow2((k - 1) as nat)),
            decreases failures - k,
        {
            proof {
                assert(pow2(k as nat) == 2 * pow2((k - 1) as nat));
                assert(self.base_delay_ms * pow2(k as nat) == 2 * (self.base_delay_ms * pow2((k - 1) as nat)))
                    by (nonlinear_arith)
                    requires
                        pow2(k as nat) == 2 * pow2((k - 1) as nat),
                ;
            }
            delay = if delay > u64::MAX / 2 { u64::MAX } else { delay * 2 };
            k = k + 1;
        }
        let total = if delay > u64::MAX - jitter_ms { u64::MAX } else { delay + jitter_ms };
        RetryDecision::Retry(total)
    }
}

} // verus!
