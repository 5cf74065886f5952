//! Exponential backoff with jitter, shared by the socket reconnect loop and the outbox.

use crate::constants::{BACKOFF_BASE, BACKOFF_CAP};
use rand::Rng;
use vstd::arithmetic::power2::{lemma2_to64, lemma_pow2_adds, lemma_pow2_strictly_increases, pow2};
use vstd::prelude::*;

verus! {

/// The delay of a retry: two seconds, doubled per attempt, at most five minutes.
pub open spec fn backoff_ms(attempt: nat) -> nat {
    if BACKOFF_BASE * pow2(attempt) < BACKOFF_CAP {
        (BACKOFF_BASE * pow2(attempt)) as nat
    } else {
        BACKOFF_CAP as nat
    }
}

/// The delay, in milliseconds, before retry number `attempt` (counted from 0), without jitter.
pub fn backoff_base(attempt: u32) -> (ms: u64)
    ensures
        ms == backoff_ms(attempt as nat),
{
    let mut ms: u64 = BACKOFF_BASE;
    let mut i: u32 = 0;
    proof {
        lemma2_to64();
    }
    while i < attempt && ms < BACKOFF_CAP
        invariant
            i <= attempt,
            0 < ms < 2 * BACKOFF_CAP,
            ms == BACKOFF_BASE * pow2(i as nat),
        decreases attempt - i,
    {
        proof {
            lemma2_to64();
            lemma_pow2_adds(i as nat, 1);
        }
        ms = ms * 2;
        i += 1;
    }
    if ms >= BACKOFF_CAP {
        proof {
            if i < attempt {
                lemma_pow2_strictly_increases(i as nat, attempt as nat);
            }
        }
        BACKOFF_CAP
    } else {
        ms
    }
}

/// `rand::Rng::gen_range` on the thread's generator: some number of the closed range.
#[verifier::external_body]
fn random_between(lo: u64, hi: u64) -> (r: u64)
    requires
        lo <= hi,
    ensures
        lo <= r <= hi,
{
    rand::thread_rng().gen_range(lo..=hi)
}

/// Jittered delay: anything from half the base delay up to the base delay.
pub fn backoff_delay(attempt: u32) -> (ms: u64)
    ensures
        backoff_ms(attempt as nat) / 2 <= ms <= backoff_ms(attempt as nat),
{
    let base: u64 = backoff_base(attempt);
    proof {
        law_backoff_bounds(attempt as nat);
    }
    random_between(base / 2, base)
}

/// The delay never drops below two seconds and never exceeds five minutes.
pub proof fn law_backoff_bounds(attempt: nat)
    ensures
        2_000 <= backoff_ms(attempt) <= 300_000,
{
    lemma2_to64();
    if attempt > 0 {
        lemma_pow2_strictly_increases(0, attempt);
    }
}

/// The delay never shrinks as attempts go by, and doubles until it reaches the cap.
pub proof fn law_backoff_grows(attempt: nat)
    ensures
        backoff_ms(attempt) <= backoff_ms(attempt + 1),
        backoff_ms(attempt + 1) < 300_000 ==> backoff_ms(attempt + 1) == 2 * backoff_ms(attempt),
{
    lemma2_to64();
    lemma_pow2_adds(attempt, 1);
}

} // verus!
