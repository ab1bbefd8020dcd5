//! Waiting times between tries: exponential backoff with a little jitter.
use vstd::arithmetic::power2::{lemma2_to64, lemma_pow2_strictly_increases, lemma_pow2_unfold, pow2};
use vstd::prelude::*;

verus! {

/// The waiting time before the first retry, in milliseconds.
pub const BASE_MS: u64 = 200;

/// The longest waiting time before jitter, in milliseconds.
pub const MAX_MS: u64 = 2_000;

/// How often the waiting time is doubled at most.
pub const MAX_DOUBLINGS: usize = 6;

/// The waiting time after try number `attempt` (counted from 0), before jitter.
pub open spec fn backoff(attempt: nat) -> nat {
    let doublings = if attempt < MAX_DOUBLINGS {
        attempt
    } else {
        MAX_DOUBLINGS as nat
    };
    let doubled = BASE_MS as nat * pow2(doublings);
    if doubled < MAX_MS {
        doubled
    } else {
        MAX_MS as nat
    }
}

/// The largest jitter that may be added after try number `attempt`.
pub open spec fn jitter_limit(attempt: nat) -> nat {
    if backoff(attempt) / 4 > 1 {
        backoff(attempt) / 4
    } else {
        1
    }
}

/// The waiting time after try number `attempt`, before jitter.
pub fn backoff_ms(attempt: usize) -> (ms: u64)
    ensures
        ms == backoff(attempt as nat),
{
    let doublings: usize = if attempt < MAX_DOUBLINGS {
        attempt
    } else {
        MAX_DOUBLINGS
    };
    let mut doubled: u64 = BASE_MS;
    let mut i: usize = 0;
    assert(pow2(0) == 1) by {
        lemma2_to64();
    }
    while i < doublings
        invariant
            i <= doublings <= MAX_DOUBLINGS,
            doubled == BASE_MS * pow2(i as nat),
        decreases doublings - i,
    {
        proof {
            lemma2_to64();
            lemma_pow2_unfold((i + 1) as nat);
            if i > 0 {
                lemma_pow2_strictly_increases(i as nat, 6);
            }
        }
        doubled = doubled * 2;
        i += 1;
    }
    if doubled < MAX_MS {
        doubled
    } else {
        MAX_MS
    }
}

/// The largest jitter that may be added after try number `attempt`.
pub fn jitter_limit_ms(attempt: usize) -> (ms: u64)
    ensures
        ms == jitter_limit(attempt as nat),
{
    let quarter: u64 = backoff_ms(attempt) / 4;
    if quarter > 1 {
        quarter
    } else {
        1
    }
}

/// The waiting time after try number `attempt` with the given jitter.
pub fn delay_with_jitter(attempt: usize, jitter: u64) -> (ms: u64)
    ensures
        ms == (if backoff(attempt as nat) + jitter <= u64::MAX {
            backoff(attempt as nat) + jitter
        } else {
            u64::MAX as int
        }),
{
    let backoff: u64 = backoff_ms(attempt);
    if backoff <= u64::MAX - jitter {
        backoff + jitter
    } else {
        u64::MAX
    }
}

/// Calls `fastrand::u64` on the range from 0 to `limit`, both ends counted. Claims that the
/// number lies in that range.
#[verifier::external_body]
fn random_up_to(limit: u64) -> (number: u64)
    ensures
        number <= limit,
{
    fastrand::u64(0..=limit)
}

/// The waiting time after try number `attempt`, in milliseconds, with random jitter.
pub(crate) fn delay_ms(attempt: usize) -> (ms: u64)
    ensures
        backoff(attempt as nat) <= ms <= backoff(attempt as nat) + jitter_limit(attempt as nat),
{
    let jitter: u64 = random_up_to(jitter_limit_ms(attempt));
    delay_with_jitter(attempt, jitter)
}

/// Waiting times before jitter never shrink from one try to a later one.
pub proof fn backoff_grows(earlier: nat, later: nat)
    requires
        earlier <= later,
    ensures
        backoff(earlier) <= backoff(later),
{
    lemma2_to64();
}

/// Before jitter a waiting time lies between the base and the longest time; each try doubles it
/// until the longest time is reached, and from there on it stays.
pub proof fn backoff_doubles_up_to_the_limit(attempt: nat)
    ensures
        BASE_MS <= backoff(attempt) <= MAX_MS,
        backoff(0) == BASE_MS,
        backoff(attempt + 1) == (if 2 * backoff(attempt) < MAX_MS {
            2 * backoff(attempt)
        } else {
            MAX_MS as nat
        }),
{
    lemma2_to64();
}

/// Jitter adds at most a quarter to a waiting time.
pub proof fn jitter_is_at_most_a_quarter(attempt: nat)
    ensures
        jitter_limit(attempt) * 4 <= backoff(attempt),
        backoff(attempt) + jitter_limit(attempt) <= MAX_MS + MAX_MS / 4,
{
    backoff_doubles_up_to_the_limit(attempt);
}

/// The first waiting time is 200 milliseconds; each is twice the one before, but never more than
/// 2000 milliseconds, which it is from the fifth try on.
pub proof fn waiting_times_in_milliseconds(attempt: nat)
    ensures
        backoff(0) == 200,
        backoff(attempt + 1) <= 2 * backoff(attempt),
        backoff(attempt + 1) <= 2000,
        backoff(attempt + 1) == 2 * backoff(attempt) || backoff(attempt + 1) == 2000,
        attempt >= 4 ==> backoff(attempt) == 2000,
{
    lemma2_to64();
}

/// The most jitter is a quarter of the waiting time, rounded down.
pub proof fn jitter_reaches_a_quarter(attempt: nat)
    ensures
        4 * jitter_limit(attempt) <= backoff(attempt) < 4 * jitter_limit(attempt) + 4,
{
    lemma2_to64();
    backoff_doubles_up_to_the_limit(attempt);
}

} // verus!
