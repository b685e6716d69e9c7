//! Backoff policies: the function from retry attempt number to the wait, in
//! seconds, before that attempt.

use vstd::prelude::*;
use vstd::arithmetic::power::pow;
use vstd::arithmetic::mul::lemma_mul_inequality;
use vstd::arithmetic::div_mod::lemma_fundamental_div_mod;
use vstd::arithmetic::div_mod::lemma_mod_division_less_than_divisor;
use vstd::math::min;

verus! {

/// The two supported backoff shapes.
#[derive(Clone, Copy, PartialEq, Eq, Structural, Debug)]
pub enum BackoffPolicy {
    /// Wait `delay_secs` before every attempt.
    Fixed { delay_secs: u64 },
    /// Wait `min(base_secs * multiplier^(k - 1), cap_secs)` before attempt
    /// `k` (1-based).
    Exponential { base_secs: u64, multiplier: u64, cap_secs: u64 },
}

impl BackoffPolicy {
    /// A policy is well formed when an exponential multiplier is at least 1;
    /// growing a delay by a factor of zero is meaningless.
    pub open spec fn wf(self) -> bool {
        match self {
            BackoffPolicy::Fixed { .. } => true,
            BackoffPolicy::Exponential { multiplier, .. } => multiplier >= 1,
        }
    }

    /// The wait, in seconds, before the 1-based attempt number `attempt`:
    /// the constant delay for a fixed policy, and
    /// `min(base_secs * multiplier^(attempt - 1), cap_secs)` for an
    /// exponential policy.
    pub open spec fn spec_delay(self, attempt: nat) -> nat
        recommends
            1 <= attempt,
            self.wf(),
    {
        match self {
            BackoffPolicy::Fixed { delay_secs } => delay_secs as nat,
            BackoffPolicy::Exponential { base_secs, multiplier, cap_secs } => min(
                base_secs as int * pow(multiplier as int, (attempt - 1) as nat),
                cap_secs as int,
            ) as nat,
        }
    }

    /// The wait before the attempt that follows `prior_failures` failed
    /// attempts (so the first attempt waits the delay for attempt 1).
    pub fn delay_after_failures(self, prior_failures: u64) -> (d: u64)
        requires
            self.wf(),
        ensures
            d == self.spec_delay(prior_failures as nat + 1),
    {
        match self {
            BackoffPolicy::Fixed { delay_secs } => delay_secs,
            BackoffPolicy::Exponential { base_secs, multiplier, cap_secs } => {
                let mut d: u64 = if base_secs > cap_secs {
                    cap_secs
                } else {
                    base_secs
                };
                let mut i: u64 = 0;
                proof {
                    reveal(pow);
                }
                while i < prior_failures
                    invariant
                        i <= prior_failures,
                        multiplier >= 1,
                        d as int == min(
                            base_secs as int * pow(multiplier as int, i as nat),
                            cap_secs as int,
                        ),
                    decreases prior_failures - i,
                {
                    proof {
                        lemma_exponential_delay_step(
                            base_secs as int,
                            multiplier as int,
                            cap_secs as int,
                            i as nat,
                        );
                    }
                    if d >= cap_secs {
                        d = cap_secs;
                    } else if d > cap_secs / multiplier {
                        proof {
                            lemma_grown_delay_reaches_cap(d as int, multiplier as int, cap_secs as int);
                        }
                        d = cap_secs;
                    } else {
                        proof {
                            lemma_grown_delay_below_cap(d as int, multiplier as int, cap_secs as int);
                        }
                        d = d * multiplier;
                    }
                    i = i + 1;
                }
                d
            },
        }
    }

    /// The wait before the 1-based attempt number `attempt`.
    pub fn delay_for_attempt(self, attempt: u64) -> (d: u64)
        requires
            self.wf(),
            attempt >= 1,
        ensures
            d == self.spec_delay(attempt as nat),
    {
        self.delay_after_failures(attempt - 1)
    }
}

/// A fixed-delay policy waits the same time before every attempt.
pub proof fn lemma_fixed_delay_constant(delay_secs: u64, attempt: nat)
    requires
        attempt >= 1,
    ensures
        (BackoffPolicy::Fixed { delay_secs }).spec_delay(attempt) == delay_secs,
{
}

/// An exponential policy's wait before attempt `k` is the base delay grown
/// by the multiplier once per prior attempt, capped at `cap_secs`.
pub proof fn lemma_exponential_delay_formula(
    base_secs: u64,
    multiplier: u64,
    cap_secs: u64,
    attempt: nat,
)
    requires
        attempt >= 1,
        multiplier >= 1,
    ensures
        (BackoffPolicy::Exponential { base_secs, multiplier, cap_secs }).spec_delay(attempt)
            == min(base_secs as int * pow(multiplier as int, (attempt - 1) as nat), cap_secs as int),
{
    vstd::arithmetic::power::lemma_pow_positive(multiplier as int, (attempt - 1) as nat);
    assert(base_secs as int * pow(multiplier as int, (attempt - 1) as nat) >= 0) by (nonlinear_arith)
        requires
            base_secs >= 0,
            pow(multiplier as int, (attempt - 1) as nat) >= 0,
    ;
}

/// One growth step of the exponential delay: multiplying the uncapped delay
/// by the multiplier can only move it further past the cap once it is there.
proof fn lemma_exponential_delay_step(base: int, m: int, cap: int, i: nat)
    requires
        base >= 0,
        m >= 1,
    ensures
        pow(m, i + 1) == pow(m, i) * m,
        pow(m, i) >= 0,
        base * pow(m, i + 1) == (base * pow(m, i)) * m,
        base * pow(m, i) * m >= base * pow(m, i),
{
    reveal(pow);
    vstd::arithmetic::power::lemma_pow_positive(m, i);
    assert(pow(m, i + 1) == m * pow(m, i));
    assert(m * pow(m, i) == pow(m, i) * m) by (nonlinear_arith);
    assert(base * (pow(m, i) * m) == (base * pow(m, i)) * m) by (nonlinear_arith);
    assert((base * pow(m, i)) * m >= base * pow(m, i)) by (nonlinear_arith)
        requires
            m >= 1,
            base * pow(m, i) >= 0,
    ;
    assert(base * pow(m, i) >= 0) by (nonlinear_arith)
        requires
            base >= 0,
            pow(m, i) >= 0,
    ;
}

/// If the current uncapped delay already exceeds `cap / m`, one more growth
/// step lands at or past the cap.
proof fn lemma_grown_delay_reaches_cap(d: int, m: int, cap: int)
    requires
        m >= 1,
        cap >= 0,
        d > cap / m,
    ensures
        d * m > cap,
{
    lemma_fundamental_div_mod(cap, m);
    lemma_mod_division_less_than_divisor(cap, m);
    lemma_mul_inequality(cap / m + 1, d, m);
    assert((cap / m + 1) * m == (cap / m) * m + m) by (nonlinear_arith);
    assert(m * (cap / m) == (cap / m) * m) by (nonlinear_arith);
}

/// If the current uncapped delay is at most `cap / m`, one more growth step
/// stays at or below the cap.
proof fn lemma_grown_delay_below_cap(d: int, m: int, cap: int)
    requires
        m >= 1,
        cap >= 0,
        0 <= d <= cap / m,
    ensures
        d * m <= cap,
{
    lemma_fundamental_div_mod(cap, m);
    lemma_mod_division_less_than_divisor(cap, m);
    lemma_mul_inequality(d, cap / m, m);
}

} // verus!
