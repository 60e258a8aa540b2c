//! The retry policy of a recovering informer: how long to wait before each
//! attempt to open a session again, and when to give up.

use vstd::prelude::*;
use vstd::arithmetic::power2::pow2;
use vstd::arithmetic::power2::lemma_pow2_unfold;
use vstd::arithmetic::power2::lemma_pow2_pos;

verus! {

/// Bounded retry with exponential backoff. Times are in milliseconds.
#[derive(Clone, Copy, Debug, PartialEq, Eq, Structural)]
pub struct RetryPolicy {
    /// The wait before the first attempt.
    pub base_ms: u64,
    /// No wait is longer than this.
    pub cap_ms: u64,
    /// The number of failed attempts in a row after which the informer gives
    /// up.
    pub max_attempts: u32,
}

/// The wait before attempt number `attempt` (counted from 0): the base
/// doubled once for every earlier attempt, and never more than the cap.
pub open spec fn backoff_ms(policy: RetryPolicy, attempt: nat) -> nat {
    let grown = policy.base_ms as nat * pow2(attempt);
    if grown < policy.cap_ms {
        grown
    } else {
        policy.cap_ms as nat
    }
}

/// Whether one more failed attempt, after `failed` of them in a row, uses the
/// retry budget up.
pub open spec fn gives_up(policy: RetryPolicy, failed: nat) -> bool {
    failed + 1 >= policy.max_attempts
}

/// The wait that is really slept: `delay_ms` less a part of its lower half
/// that `entropy` picks.
pub open spec fn jittered_ms(delay_ms: u64, entropy: u64) -> int {
    delay_ms - entropy as int % (delay_ms / 2 + 1)
}

impl Default for RetryPolicy {
    /// One second at first, thirty seconds at most, five attempts.
    fn default() -> (policy: Self)
        ensures
            policy == (RetryPolicy { base_ms: 1000, cap_ms: 30000, max_attempts: 5 }),
    {
        RetryPolicy { base_ms: 1000, cap_ms: 30000, max_attempts: 5 }
    }
}

impl RetryPolicy {
    /// The wait before attempt number `attempt`, counted from 0.
    pub fn delay_ms(&self, attempt: u32) -> (delay: u64)
        ensures
            delay == backoff_ms(*self, attempt as nat),
    {
        proof {
            vstd::arithmetic::power2::lemma2_to64();
        }
        if self.base_ms >= self.cap_ms {
            proof {
                lemma_pow2_pos(attempt as nat);
                assert(self.base_ms as nat * pow2(attempt as nat) >= self.base_ms) by (nonlinear_arith)
                    requires
                        pow2(attempt as nat) >= 1,
                ;
            }
            return self.cap_ms;
        }
        if self.base_ms == 0 {
            assert(0 * pow2(attempt as nat) == 0);
            return 0;
        }
        let mut delay: u64 = self.base_ms;
        let mut done: u32 = 0;
        while done < attempt && delay < self.cap_ms
            invariant
                done <= attempt,
                self.base_ms > 0,
                delay <= self.cap_ms,
                delay == backoff_ms(*self, done as nat),
            decreases attempt - done,
        {
            proof {
                lemma_pow2_unfold(done as nat + 1);
                assert(self.base_ms as nat * (2 * pow2(done as nat)) == 2 * (self.base_ms as nat
                    * pow2(done as nat))) by (nonlinear_arith);
            }
            if delay > self.cap_ms / 2 {
                delay = self.cap_ms;
            } else {
                delay = delay * 2;
            }
            done = done + 1;
        }
        proof {
            if done < attempt {
                lemma_backoff_stays_at_cap(*self, done as nat, attempt as nat);
            }
        }
        delay
    }

    /// Whether one more failed attempt, after `failed` of them in a row, is
    /// the last one: the informer then gives up. At least one attempt is
    /// always made.
    pub fn gives_up_after(&self, failed: u32) -> (yes: bool)
        ensures
            yes == gives_up(*self, failed as nat),
    {
        self.max_attempts <= 1 || failed >= self.max_attempts - 1
    }
}

/// Once the wait has reached the cap, it stays there.
pub proof fn lemma_backoff_stays_at_cap(policy: RetryPolicy, early: nat, late: nat)
    requires
        early <= late,
        backoff_ms(policy, early) == policy.cap_ms,
    ensures
        backoff_ms(policy, late) == policy.cap_ms,
{
    lemma_backoff_monotone(policy, early, late);
}

/// A later attempt never waits less than an earlier one, and no attempt
/// waits longer than the cap.
pub proof fn lemma_backoff_monotone(policy: RetryPolicy, early: nat, late: nat)
    requires
        early <= late,
    ensures
        backoff_ms(policy, early) <= backoff_ms(policy, late) <= policy.cap_ms,
    decreases late - early,
{
    if early < late {
        lemma_backoff_monotone(policy, early, (late - 1) as nat);
        lemma_pow2_unfold(late);
        assert(policy.base_ms as nat * pow2((late - 1) as nat) <= policy.base_ms as nat * pow2(
            late,
        )) by (nonlinear_arith)
            requires
                pow2(late) == 2 * pow2((late - 1) as nat),
        ;
    }
}

/// Takes a part of the lower half of `delay_ms` away, as `entropy` picks it,
/// so that informers that failed together do not come back together.
/// `entropy` is any number; the driver supplies a random one.
pub fn jitter(delay_ms: u64, entropy: u64) -> (wait: u64)
    ensures
        wait == jittered_ms(delay_ms, entropy),
        delay_ms - delay_ms / 2 <= wait <= delay_ms,
{
    let span: u64 = delay_ms / 2 + 1;
    delay_ms - entropy % span
}

} // verus!
