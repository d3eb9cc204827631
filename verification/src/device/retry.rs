//! How long to wait before the port is opened again.
//!
//! After the first failure the wait is the shortest interval of the policy.
//! With each further failure in a row it doubles, until it would reach the
//! longest interval, which then stands. No wait is shorter than the shortest
//! interval, whatever the longest is set to.

use vstd::arithmetic::power2::{lemma_pow2_pos, lemma_pow2_strictly_increases, lemma_pow2_unfold, pow2};
use vstd::prelude::*;

verus! {

/// The limits between which the waits before a new attempt lie.
#[derive(Clone, Copy, Debug, PartialEq, Eq, Structural)]
pub struct RetryPolicy {
    /// The shortest wait, in milliseconds.
    pub min_interval_ms: u64,
    /// The longest wait, in milliseconds.
    pub max_interval_ms: u64,
}

impl Default for RetryPolicy {
    /// Waits from half a second up to eight seconds.
    fn default() -> (policy: Self)
        ensures
            policy == (RetryPolicy { min_interval_ms: 500, max_interval_ms: 8000 }),
    {
        RetryPolicy { min_interval_ms: 500, max_interval_ms: 8000 }
    }
}

impl RetryPolicy {
    /// The shortest wait doubled once for each failure after the first.
    pub open spec fn grown(self, failures: nat) -> nat {
        if failures == 0 {
            self.min_interval_ms as nat
        } else {
            self.min_interval_ms as nat * pow2((failures - 1) as nat)
        }
    }

    /// The longest wait that the policy ever asks for: its longest interval,
    /// or the shortest where that is longer.
    pub open spec fn ceiling(self) -> nat {
        if self.min_interval_ms <= self.max_interval_ms {
            self.max_interval_ms as nat
        } else {
            self.min_interval_ms as nat
        }
    }

    /// The wait, in milliseconds, after `failures` failed attempts in a row.
    pub open spec fn delay_after(self, failures: nat) -> nat {
        if self.grown(failures) < self.max_interval_ms {
            self.grown(failures)
        } else {
            self.ceiling()
        }
    }

    /// The wait never falls below the shortest interval of the policy, and
    /// never rises above its ceiling.
    pub proof fn delay_is_bounded(self, failures: nat)
        ensures
            self.min_interval_ms <= self.delay_after(failures) <= self.ceiling(),
            self.delay_after(failures) <= u64::MAX,
    {
        self.grown_is_monotonic(0, failures);
    }

    /// More failures never shorten the doubled wait.
    pub proof fn grown_is_monotonic(self, fewer: nat, more: nat)
        requires
            fewer <= more,
        ensures
            self.grown(fewer) <= self.grown(more),
    {
        let low = if fewer == 0 { 0nat } else { (fewer - 1) as nat };
        let high = if more == 0 { 0nat } else { (more - 1) as nat };
        lemma_pow2_pos(low);
        if low < high {
            lemma_pow2_strictly_increases(low, high);
        }
        assert(pow2(0) == 1) by {
            lemma_pow2_unfold(1);
            vstd::arithmetic::power2::lemma2_to64();
        }
        let base = self.min_interval_ms as nat;
        assert(base * pow2(low) <= base * pow2(high)) by (nonlinear_arith)
            requires
                pow2(low) <= pow2(high),
        ;
    }

    /// More failures never shorten the wait.
    pub proof fn delay_is_monotonic(self, fewer: nat, more: nat)
        requires
            fewer <= more,
        ensures
            self.delay_after(fewer) <= self.delay_after(more),
    {
        self.grown_is_monotonic(fewer, more);
        self.delay_is_bounded(fewer);
    }

    /// The wait, in milliseconds, before the next attempt, after `failures`
    /// failed attempts in a row.
    pub fn delay(&self, failures: u32) -> (wait_ms: u64)
        ensures
            wait_ms == self.delay_after(failures as nat),
    {
        let shortest = self.min_interval_ms;
        let longest = self.max_interval_ms;
        proof {
            self.grown_is_monotonic(0, failures as nat);
        }
        if shortest >= longest {
            return shortest;
        }
        if shortest == 0 {
            assert(self.grown(failures as nat) == 0) by (nonlinear_arith)
                requires
                    self.min_interval_ms == 0,
                    self.grown(failures as nat) == if failures == 0 {
                        0nat
                    } else {
                        self.min_interval_ms as nat * pow2((failures - 1) as nat)
                    },
            ;
            return 0;
        }
        let mut wait_ms = shortest;
        let mut counted: u32 = 1;
        proof {
            vstd::arithmetic::power2::lemma2_to64();
            assert(self.grown(1) == shortest) by (nonlinear_arith)
                requires
                    self.grown(1) == self.min_interval_ms as nat * pow2(0),
                    pow2(0) == 1,
                    shortest == self.min_interval_ms,
            ;
        }
        while counted < failures
            invariant
                1 <= counted,
                counted <= failures || counted == 1,
                shortest < longest,
                self.grown(0) == self.grown(1),
                shortest == self.min_interval_ms,
                longest == self.max_interval_ms,
                wait_ms == self.grown(counted as nat),
                wait_ms < longest,
            decreases failures - counted,
        {
            if wait_ms >= longest - wait_ms {
                proof {
                    self.lemma_grown_doubles(counted as nat);
                    self.grown_is_monotonic((counted + 1) as nat, failures as nat);
                }
                return longest;
            }
            proof {
                self.lemma_grown_doubles(counted as nat);
            }
            wait_ms = wait_ms * 2;
            counted += 1;
        }
        wait_ms
    }

    /// One more failure doubles the doubled wait.
    proof fn lemma_grown_doubles(self, failures: nat)
        requires
            failures >= 1,
        ensures
            self.grown(failures + 1) == 2 * self.grown(failures),
    {
        lemma_pow2_unfold(failures);
        let base = self.min_interval_ms as nat;
        let power = pow2((failures - 1) as nat);
        assert(base * (2 * power) == 2 * (base * power)) by (nonlinear_arith);
    }
}

} // verus!
