//! Polling schedule for the station sub-interface.
//!
//! The station sub-interface may not exist immediately after power-on; that
//! is a known daemon race, not an error.  On a powered-on transition the
//! interface is polled with exponential backoff — 50 ms doubling up to
//! 800 ms, ten attempts in all — before the scanning and state property
//! streams are subscribed.

use vstd::prelude::*;

verus! {

/// How many times the station interface is polled before giving up.
pub const STATION_POLL_ATTEMPTS: u32 = 10;

/// The wait after poll attempt `attempt` (counted from zero): 50 ms doubled
/// each attempt, capped at 800 ms.
pub open spec fn backoff_delay(attempt: int) -> int {
    if attempt <= 0 {
        50
    } else if attempt == 1 {
        100
    } else if attempt == 2 {
        200
    } else if attempt == 3 {
        400
    } else {
        800
    }
}

/// Total waiting time after the first `attempts` waits of the schedule.
pub open spec fn total_backoff(attempts: nat) -> int
    decreases attempts,
{
    if attempts == 0 {
        0
    } else {
        total_backoff((attempts - 1) as nat) + backoff_delay(attempts - 1)
    }
}

/// The wait, in milliseconds, between poll attempt `attempt` and the next.
pub fn backoff_delay_ms(attempt: u32) -> (r: u64)
    ensures
        r == backoff_delay(attempt as int),
{
    if attempt == 0 {
        50
    } else if attempt == 1 {
        100
    } else if attempt == 2 {
        200
    } else if attempt == 3 {
        400
    } else {
        800
    }
}

/// The doubling phase of the schedule — the waits before the cap is reached,
/// covering the first five waits — takes 1550 ms in all, so when the
/// interface appears within that phase the poll has waited at most about a
/// second and a half.
pub proof fn lemma_backoff_doubling_phase_total()
    ensures
        total_backoff(5) == 1550,
{
    reveal_with_fuel(total_backoff, 6);
}

/// Every wait of the schedule is capped at 800 ms: after the doubling phase
/// each further attempt adds at most 800 ms.
pub proof fn lemma_backoff_capped(attempt: int)
    ensures
        50 <= backoff_delay(attempt) <= 800,
{
}

} // verus!
