use vstd::prelude::*;

verus! {

/// Divider voltage (millivolts) of an empty cell: about 3.4 V behind a 1:2 divider.
pub const MIN_MV: u32 = 1_700;
/// Divider voltage (millivolts) of a full cell: about 4.2 V behind a 1:2 divider.
pub const MAX_MV: u32 = 2_100;
/// The divider voltage the battery reading currently reports.
pub const RAW_MV: u32 = 2_054;

/// The battery gauge.
pub struct Battery;

/// Charge in percent for a divider voltage of `mv` millivolts: linear between
/// `MIN_MV` (0 %) and `MAX_MV` (100 %), rounded down, and flat outside that range.
pub open spec fn percent_of_mv(mv: int) -> int {
    let clamped = if mv < MIN_MV {
        MIN_MV as int
    } else if mv > MAX_MV {
        MAX_MV as int
    } else {
        mv
    };
    (clamped - MIN_MV) * 100 / ((MAX_MV - MIN_MV) as int)
}

impl Battery {
    pub fn new() -> (r: Self)
        ensures
            r == Battery,
    {
        Battery
    }

    /// Charge in percent.
    pub fn percent(&self) -> (r: u8)
        ensures
            r == percent_of_mv(RAW_MV as int),
            r <= 100,
    {
        let mv = self.read_raw();
        Self::scale(mv)
    }

    /// Scales a divider reading in millivolts to percent.
    fn scale(mv: u32) -> (r: u8)
        ensures
            r == percent_of_mv(mv as int),
            r <= 100,
    {
        let clamped: u32 = if mv < MIN_MV {
            MIN_MV
        } else if mv > MAX_MV {
            MAX_MV
        } else {
            mv
        };
        let pct: u32 = (clamped - MIN_MV) * 100 / (MAX_MV - MIN_MV);
        assert(pct <= 100) by (nonlinear_arith)
            requires
                clamped <= MAX_MV,
                clamped >= MIN_MV,
                pct == (clamped - MIN_MV) * 100 / (MAX_MV - MIN_MV),
        ;
        pct as u8
    }

    /// The divider voltage in millivolts.
    pub fn read_raw(&self) -> (r: u32)
        ensures
            r == RAW_MV,
    {
        RAW_MV
    }
}

impl Default for Battery {
    fn default() -> (r: Self)
        ensures
            r == Battery,
    {
        Self::new()
    }
}

/// The charge never exceeds 100 %, is 0 % at or below the empty voltage, 100 % at or above
/// the full voltage, and never falls when the voltage rises.
pub proof fn lemma_percent_bounded_monotone(a: int, b: int)
    ensures
        0 <= percent_of_mv(a) <= 100,
        a <= MIN_MV ==> percent_of_mv(a) == 0,
        a >= MAX_MV ==> percent_of_mv(a) == 100,
        a <= b ==> percent_of_mv(a) <= percent_of_mv(b),
{
    let ca = if a < MIN_MV { MIN_MV as int } else if a > MAX_MV { MAX_MV as int } else { a };
    let cb = if b < MIN_MV { MIN_MV as int } else if b > MAX_MV { MAX_MV as int } else { b };
    assert(0 <= (ca - 1700) * 100 / 400 <= 100) by (nonlinear_arith)
        requires 1700 <= ca <= 2100;
    assert(a <= b ==> (ca - 1700) * 100 / 400 <= (cb - 1700) * 100 / 400) by (nonlinear_arith)
        requires a <= b ==> ca <= cb;
}

} // verus!
