//! The retry policy: how often a request is attempted and how long the pause
//! before each further attempt lasts.

use vstd::arithmetic::power2::{lemma2_to64_rest, lemma_pow2_strictly_increases, lemma_pow2_unfold, pow2};
use vstd::prelude::*;

verus! {

/// The number of attempts after which a fetch gives up.
pub const MAX_ATTEMPTS: u32 = 3;

/// The pause after the first failed attempt, in milliseconds.
pub const BASE_DELAY_MILLIS: u64 = 100;

/// The largest attempt count whose pause still fits in 64 bits.
pub const MAX_DELAYED_ATTEMPTS: u32 = 58;

/// The pause that follows the failed attempt number `attempts`, counted from
/// one: the base delay, doubled once for every attempt before it.
pub open spec fn backoff_delay(attempts: nat) -> nat {
    BASE_DELAY_MILLIS as nat * pow2((attempts - 1) as nat)
}

/// The pauses after the first and the second failed attempt.
pub proof fn lemma_backoff_delays()
    ensures
        backoff_delay(1) == 100,
        backoff_delay(2) == 200,
{
    vstd::arithmetic::power2::lemma2_to64();
}

/// The pause doubles from each failed attempt to the next.
pub proof fn lemma_backoff_doubles(attempts: nat)
    requires
        attempts >= 1,
    ensures
        backoff_delay(attempts + 1) == 2 * backoff_delay(attempts),
{
    lemma_pow2_unfold(attempts);
    assert(100 * (2 * pow2((attempts - 1) as nat)) == 2 * (100 * pow2((attempts - 1) as nat)))
        by (nonlinear_arith);
}

/// Computes the pause, in milliseconds, that follows the failed attempt
/// number `attempts`.
pub fn backoff_millis(attempts: u32) -> (millis: u64)
    requires
        1 <= attempts <= MAX_DELAYED_ATTEMPTS,
    ensures
        millis == backoff_delay(attempts as nat),
{
    let mut millis: u64 = BASE_DELAY_MILLIS;
    let mut counted: u32 = 1;
    proof {
        vstd::arithmetic::power2::lemma2_to64();
    }
    while counted < attempts
        invariant
            1 <= counted <= attempts <= MAX_DELAYED_ATTEMPTS,
            millis == backoff_delay(counted as nat),
        decreases attempts - counted,
    {
        proof {
            lemma_backoff_doubles(counted as nat);
            lemma2_to64_rest();
            if counted < 57 {
                lemma_pow2_strictly_increases(counted as nat, 57);
            }
            assert(backoff_delay(counted as nat + 1) <= 100 * pow2(57)) by (nonlinear_arith)
                requires
                    backoff_delay(counted as nat + 1) == 100 * pow2(counted as nat),
                    pow2(counted as nat) <= pow2(57),
            ;
        }
        millis = millis * 2;
        counted = counted + 1;
    }
    millis
}

} // verus!
