//! How long to wait before a failed endpoint is tried again.

use vstd::arithmetic::power2::{lemma2_to64, lemma_pow2_strictly_increases, lemma_pow2_unfold, pow2};
use vstd::prelude::*;

use crate::clock::Duration;

verus! {

/// The wait after the first failure.
pub const INITIAL_RETRY_DELAY: Duration = 500_000_000;

/// The longest wait between two attempts.
pub const MAX_RETRY_DELAY: Duration = 30_000_000_000;

/// The wait that doubles with each failure after the first, up to the longest wait.
pub open spec fn backoff(attempt: nat) -> Duration {
    let doublings = if attempt == 0 { 0 } else { (attempt - 1) as nat };
    let nanos = INITIAL_RETRY_DELAY * pow2(doublings);
    if nanos < MAX_RETRY_DELAY {
        nanos as u128
    } else {
        MAX_RETRY_DELAY
    }
}

/// How long to wait after `attempt` failures in a row.
pub fn retry_delay(attempt: u32) -> (delay: Duration)
    ensures
        delay == backoff(attempt as nat),
{
    let doublings: u32 = attempt.saturating_sub(1);
    let shift: u32 = if doublings < 6 { doublings } else { 6 };
    let factor: u128 = 1u128 << shift;
    proof {
        lemma2_to64();
        assert(factor == pow2(shift as nat)) by {
            assert(1u128 << 0u32 == 1) by (bit_vector);
            assert(1u128 << 1u32 == 2) by (bit_vector);
            assert(1u128 << 2u32 == 4) by (bit_vector);
            assert(1u128 << 3u32 == 8) by (bit_vector);
            assert(1u128 << 4u32 == 16) by (bit_vector);
            assert(1u128 << 5u32 == 32) by (bit_vector);
            assert(1u128 << 6u32 == 64) by (bit_vector);
        }
        if doublings > 6 {
            lemma_pow2_strictly_increases(6, doublings as nat);
        }
    }
    let nanos: u128 = INITIAL_RETRY_DELAY * factor;
    if nanos < MAX_RETRY_DELAY {
        nanos
    } else {
        MAX_RETRY_DELAY
    }
}

/// Every wait lies between the first and the longest.
pub proof fn backoff_is_bounded(attempt: nat)
    ensures
        INITIAL_RETRY_DELAY <= backoff(attempt) <= MAX_RETRY_DELAY,
{
    lemma2_to64();
    if attempt > 1 {
        lemma_pow2_strictly_increases(0, (attempt - 1) as nat);
    }
}

/// More failures never shorten the wait.
pub proof fn backoff_is_monotone(fewer: nat, more: nat)
    requires
        fewer <= more,
    ensures
        backoff(fewer) <= backoff(more),
{
    lemma2_to64();
    if fewer < more && more > 1 {
        let low = if fewer == 0 { 0 } else { (fewer - 1) as nat };
        if low < more - 1 {
            lemma_pow2_strictly_increases(low, (more - 1) as nat);
        }
    }
}

/// The first failure waits the initial delay, each further one twice as long as the one before
/// until the longest wait is reached.
pub proof fn backoff_doubles(attempt: nat)
    ensures
        backoff(1) == INITIAL_RETRY_DELAY,
        attempt >= 1 && 2 * backoff(attempt) <= MAX_RETRY_DELAY ==> backoff(
            attempt + 1,
        ) == 2 * backoff(attempt),
        attempt >= 1 && 2 * backoff(attempt) > MAX_RETRY_DELAY ==> backoff(attempt + 1)
            == MAX_RETRY_DELAY,
{
    lemma2_to64();
    if attempt >= 1 {
        lemma_pow2_unfold(attempt);
        assert(pow2(attempt) == 2 * pow2((attempt - 1) as nat));
    }
}

/// From the seventh failure in a row on, the wait is the longest one.
pub proof fn backoff_levels_off(attempt: nat)
    requires
        attempt >= 7,
    ensures
        backoff(attempt) == MAX_RETRY_DELAY,
{
    lemma2_to64();
    if attempt > 7 {
        lemma_pow2_strictly_increases(6, (attempt - 1) as nat);
    }
}

/// Up to one failure the wait is half a second; each further failure doubles it, and no wait is
/// longer than thirty seconds.
pub proof fn delays_double_from_half_a_second(
    attempt: u32,
    next: u32,
    delay: Duration,
    next_delay: Duration,
)
    requires
        call_ensures(retry_delay, (attempt,), delay),
        call_ensures(retry_delay, (next,), next_delay),
        next == attempt + 1,
    ensures
        attempt <= 1 ==> delay == 500_000_000,
        attempt >= 1 && 2 * delay <= 30_000_000_000 ==> next_delay == 2 * delay,
        attempt >= 1 && 2 * delay > 30_000_000_000 ==> next_delay == 30_000_000_000,
        500_000_000 <= delay <= 30_000_000_000,
        attempt >= 6 ==> next_delay == 30_000_000_000,
{
    backoff_is_bounded(attempt as nat);
    backoff_is_monotone(attempt as nat, next as nat);
    backoff_doubles(attempt as nat);
    backoff_is_bounded(0);
    backoff_is_monotone(0, 1);
    if next >= 7 {
        backoff_levels_off(next as nat);
    }
}

} // verus!
