//! Blink timing shared by every fault visual.
//!
//! Indicators are stateless, so whether a blink is in its "on" half is sampled from
//! wall-clock time rather than tracked per indicator.

use crate::clock::wall_clock_millis;
use vstd::prelude::*;

verus! {

/// Full period of the fault blink: 2 Hz, 250 ms on and 250 ms off.
pub const FAULT_BLINK_PERIOD_MS: u128 = 500;

/// Half of a blink period in milliseconds, never less than 1.
pub open spec fn half_period(period_ms: nat) -> nat {
    if period_ms / 2 >= 1 { period_ms / 2 } else { 1 }
}

/// Whether a blink with full period `period_ms` is in its "on" half at wall-clock time
/// `now_ms`: on during even-numbered half periods counted from the epoch.
pub open spec fn blink_on(period_ms: nat, now_ms: nat) -> bool {
    (now_ms / half_period(period_ms)) % 2 == 0
}

/// Whether a blink with full period `period_ms` is in its "on" half at `now_ms`.
pub fn blink_phase_on_at(period_ms: u128, now_ms: u128) -> (r: bool)
    ensures
        r == blink_on(period_ms as nat, now_ms as nat),
{
    let half = if period_ms / 2 >= 1 { period_ms / 2 } else { 1 };
    (now_ms / half) % 2 == 0
}

/// Whether a blink with full period `period_ms` is in its "on" half now.
pub fn blink_phase_on(period_ms: u128) -> (r: bool)
    ensures
        exists|now: nat| r == #[trigger] blink_on(period_ms as nat, now),
{
    let now = wall_clock_millis();
    blink_phase_on_at(period_ms, now)
}

/// True during the "on" half of the 2 Hz fault blink.
pub fn fault_blink_on() -> (r: bool)
    ensures
        exists|now: nat| r == #[trigger] blink_on(FAULT_BLINK_PERIOD_MS as nat, now),
{
    blink_phase_on(FAULT_BLINK_PERIOD_MS)
}

/// The fault blink is on for the first 250 ms of every 500 ms and off for the rest.
pub proof fn lemma_fault_blink_duty(now: nat)
    ensures
        blink_on(500, now) == (now % 500 < 250),
{
    let q = now / 250;
    assert(now / 250 % 2 == 0 <==> now % 500 < 250) by (nonlinear_arith)
        requires
            q == now / 250,
    ;
}

/// A blink alternates: moving on by half a period flips its phase.
pub proof fn lemma_blink_alternates(period_ms: nat, now: nat)
    ensures
        blink_on(period_ms, now + half_period(period_ms)) == !blink_on(period_ms, now),
{
    let h = half_period(period_ms);
    assert((now + h) / h == now / h + 1) by (nonlinear_arith)
        requires
            h >= 1,
    ;
}

} // verus!
