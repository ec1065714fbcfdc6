use vstd::prelude::*;

verus! {

/// Half the period, in microseconds, of a square wave at `frequency_hz`: how long the
/// buzzer pin stays high, then low, in each cycle of a beep.
pub fn half_period_us(frequency_hz: u32) -> (r: u64)
    requires
        frequency_hz > 0,
    ensures
        r == 1_000_000int / (frequency_hz * 2),
{
    1_000_000 / (frequency_hz as u64 * 2)
}

} // verus!
