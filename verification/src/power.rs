//! Power derivation from successive readings of a hardware energy counter.
//!
//! The sampler reads a monotonically increasing 32-bit energy accumulator at a
//! fixed cadence; the delta between consecutive readings, scaled to energy
//! units and divided by the elapsed wall-clock milliseconds, yields the
//! instantaneous power figure in watts.

use vstd::prelude::*;

verus! {

/// The divisor actually used when dividing by elapsed time: a zero elapsed
/// interval is substituted with one millisecond so the division is defined.
pub open spec fn power_divisor(elapsed_ms: u64) -> int {
    if elapsed_ms == 0 {
        1
    } else {
        elapsed_ms as int
    }
}

/// Watts derived from a counter delta: the delta is converted to energy units
/// (ten raw counts per unit scaled by 153/100, i.e. `delta * 10 / 153`) and
/// divided by the elapsed milliseconds, truncating at each division.
pub open spec fn power_watts_spec(previous_counter: u32, current_counter: u32, elapsed_ms: u64) -> int {
    ((current_counter - previous_counter) * 10 / 153) / power_divisor(elapsed_ms)
}

/// Compute the power draw in watts from two consecutive counter readings and
/// the milliseconds elapsed between them. Counter wraparound is outside the
/// supported range, so the current reading must not be below the previous one.
pub fn compute_power(previous_counter: u32, current_counter: u32, elapsed_ms: u64) -> (watts: i64)
    requires
        previous_counter <= current_counter,
    ensures
        watts == power_watts_spec(previous_counter, current_counter, elapsed_ms),
        0 <= watts,
{
    let delta: u64 = (current_counter - previous_counter) as u64;
    let scaled: u64 = delta * 10 / 153;
    let divisor: u64 = if elapsed_ms == 0 {
        1
    } else {
        elapsed_ms
    };
    (scaled / divisor) as i64
}

} // verus!
