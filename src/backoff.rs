//! Equal-jitter exponential backoff between rate-limited attempts.

use rand::Rng;
use vstd::prelude::*;

verus! {

/// Two to the power `n`.
pub open spec fn pow2(n: nat) -> nat
    decreases n,
{
    if n == 0 {
        1
    } else {
        2 * pow2((n - 1) as nat)
    }
}

/// The exponential delay `initial * 2^attempt`, capped at `max`.
pub open spec fn capped_delay(initial: int, max: int, attempt: nat) -> int {
    if initial * pow2(attempt) < max {
        initial * pow2(attempt)
    } else {
        max
    }
}

proof fn lemma_pow2_positive(n: nat)
    ensures
        pow2(n) >= 1,
    decreases n,
{
    if n > 0 {
        lemma_pow2_positive((n - 1) as nat);
    }
}

proof fn lemma_scaled_pow2_monotone(initial: int, i: nat, j: nat)
    requires
        initial >= 0,
        i <= j,
    ensures
        initial * pow2(i) <= initial * pow2(j),
    decreases j - i,
{
    if i < j {
        lemma_scaled_pow2_monotone(initial, i, (j - 1) as nat);
        lemma_pow2_positive((j - 1) as nat);
        let p = pow2((j - 1) as nat);
        assert(initial * p <= initial * (2 * p)) by (nonlinear_arith)
            requires
                initial >= 0,
                p >= 1,
        ;
    }
}

/// Beyond 64 doublings any non-zero initial delay exceeds every `u64`.
pub proof fn lemma_pow2_exceeds_u64(n: nat)
    requires
        n >= 64,
    ensures
        pow2(n) > u64::MAX,
    decreases n,
{
    if n == 64 {
        reveal_with_fuel(pow2, 65);
        assert(pow2(64) == 0x1_0000_0000_0000_0000);
    } else {
        lemma_pow2_exceeds_u64((n - 1) as nat);
    }
}

/// Computes `min(initial_ms * 2^attempt, max_ms)` without overflowing,
/// however large `attempt` is.
pub fn capped_backoff(initial_ms: u64, max_ms: u64, attempt: u32) -> (r: u64)
    ensures
        r == capped_delay(initial_ms as int, max_ms as int, attempt as nat),
{
    if initial_ms == 0 {
        proof {
            assert(0 * pow2(attempt as nat) == 0) by (nonlinear_arith);
        }
        return 0;
    }
    let mut v: u64 = initial_ms;
    let mut i: u32 = 0;
    proof {
        assert(pow2(0) == 1);
    }
    while i < attempt && v < max_ms
        invariant
            i <= attempt,
            initial_ms >= 1,
            v >= 1,
            v as int == initial_ms * pow2(i as nat),
        decreases max_ms - v,
    {
        let ghost p = pow2(i as nat);
        proof {
            lemma_pow2_positive(i as nat);
            assert(initial_ms * (2 * p) == 2 * (initial_ms * p)) by (nonlinear_arith);
            assert(pow2((i + 1) as nat) == 2 * p);
        }
        if v > max_ms / 2 {
            proof {
                lemma_scaled_pow2_monotone(initial_ms as int, (i + 1) as nat, attempt as nat);
            }
            return max_ms;
        }
        v = v * 2;
        i = i + 1;
    }
    if v >= max_ms {
        proof {
            lemma_scaled_pow2_monotone(initial_ms as int, i as nat, attempt as nat);
        }
        max_ms
    } else {
        v
    }
}

/// Adds the random part of an equal-jitter delay to the fixed half.
pub fn jittered_delay(capped: u64, jitter: u64) -> (r: u64)
    requires
        jitter <= capped / 2,
    ensures
        r == capped / 2 + jitter,
{
    capped / 2 + jitter
}

/// Relies on `rand::rng().random_range(0..=hi)`: a value drawn from the
/// inclusive range, which is never empty.
#[verifier::external_body]
pub(crate) fn random_up_to(hi: u64) -> (r: u64)
    ensures
        r <= hi,
{
    rand::rng().random_range(0..=hi)
}

} // verus!
