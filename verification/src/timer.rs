//! The divisor of the programmable interval timer.

use vstd::prelude::*;

verus! {

/// The divisor that makes the hardware timer, whose base rate is
/// 1,193,182 Hz, interrupt `freq` times a second.  The divisor is the
/// base rate divided by the wanted frequency, rounded down.
pub fn timer_divisor(freq: u32) -> (d: u32)
    requires
        freq >= 1,
    ensures
        d == 1_193_182u32 / freq,
{
    1_193_182 / freq
}

} // verus!
