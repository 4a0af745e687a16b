//! The drift-correcting scheduler.
//!
//! The poll cycle runs at a fixed wall-clock interval: after each iteration
//! the loop sleeps for whatever remains of the interval, and not at all
//! when the iteration overran it. The decisions live here; the clock, the
//! sleep and the loop itself live with the embedding program, which checks
//! a termination flag once per loop boundary and stops on the first
//! iteration error.

use vstd::prelude::*;

verus! {

/// How long the loop sleeps after an iteration that took `elapsed_ms`
/// within an interval of `interval_ms`: the remainder of the interval, or
/// nothing when the iteration overran it.
pub open spec fn spec_sleep_ms(interval_ms: u64, elapsed_ms: u64) -> u64 {
    if elapsed_ms < interval_ms {
        (interval_ms - elapsed_ms) as u64
    } else {
        0u64
    }
}

/// Computes the sleep before the next iteration, so that the interval is
/// met exactly when the iteration fits into it, and the next iteration
/// follows promptly when it does not. Never a negative duration.
pub fn sleep_before_next_ms(interval_ms: u64, elapsed_ms: u64) -> (r: u64)
    ensures
        r == spec_sleep_ms(interval_ms, elapsed_ms),
{
    if elapsed_ms < interval_ms {
        interval_ms - elapsed_ms
    } else {
        0
    }
}

/// Whether the loop runs another iteration: only while no termination
/// request has been seen. The flag is checked once per loop boundary.
pub fn continue_loop(termination_requested: bool) -> (r: bool)
    ensures
        r == !termination_requested,
{
    !termination_requested
}

/// Law (scheduler timing): when an iteration of duration `t` fits within
/// the interval `I`, the sleep tops the pair up to exactly `I`, so
/// consecutive iteration starts are `I` apart; when `t >= I`, the sleep is
/// zero and the next iteration starts with no added delay.
pub proof fn lemma_interval_timing(interval_ms: u64, elapsed_ms: u64)
    ensures
        elapsed_ms < interval_ms ==> elapsed_ms + spec_sleep_ms(interval_ms, elapsed_ms)
            == interval_ms,
        elapsed_ms >= interval_ms ==> spec_sleep_ms(interval_ms, elapsed_ms) == 0,
{
}

} // verus!
