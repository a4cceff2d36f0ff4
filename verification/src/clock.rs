//! From readings of the clock to microseconds.
//!
//! The two edges of the echo pulse are stamped in ticks of the
//! `embassy_time` clock, whose rate is fixed when the program is built.
//! The length of the pulse is wanted in microseconds.

use vstd::prelude::*;

verus! {

/// The whole microseconds that `embassy_time` counts in a span of `ticks`
/// ticks, at the tick rate of this build.
pub uninterp spec fn micros_of_ticks(ticks: u64) -> u64;

/// The longest span, in ticks, that is converted to microseconds. Up to
/// here the conversion cannot overflow at any tick rate.
pub const MAX_PULSE_TICKS: u64 = 18_446_744_073_709;

/// `embassy_time::Duration::as_micros`, on the duration that
/// `Duration::from_ticks` makes of `ticks`.
///
/// Trusted, not proved: the result is `micros_of_ticks(ticks)`, which stands
/// for the span in microseconds, rounded down, as the outside function
/// computes it; and a span of no ticks is no microseconds. The outside
/// function multiplies the tick count by at most a million before it
/// divides, so spans of more than `MAX_PULSE_TICKS` ticks, on which that
/// product could overflow, are left out.
#[verifier::external_body]
fn duration_as_micros(ticks: u64) -> (micros: u64)
    requires
        ticks <= MAX_PULSE_TICKS,
    ensures
        micros == micros_of_ticks(ticks),
        ticks == 0 ==> micros == 0,
{
    embassy_time::Duration::from_ticks(ticks).as_micros()
}

/// Returns the length in microseconds of an echo pulse of `pulse` ticks,
/// or `None` where the pulse is longer than `MAX_PULSE_TICKS`.
pub fn pulse_micros(pulse: u64) -> (micros: Option<u64>)
    ensures
        pulse <= MAX_PULSE_TICKS ==> micros == Some(micros_of_ticks(pulse)),
        pulse > MAX_PULSE_TICKS ==> micros is None,
        pulse == 0 ==> micros == Some(0u64),
{
    if pulse <= MAX_PULSE_TICKS {
        Some(duration_as_micros(pulse))
    } else {
        None
    }
}

} // verus!
