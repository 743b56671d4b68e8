//! Conversion of raw analog-to-digital counts into millivolts, against a
//! calibration constant measured from the device's internal reference.

use vstd::prelude::*;

verus! {

/// Millivolt value of the internal reference source, fixed by the device.
pub const REFERENCE_MILLIVOLTS: u32 = 1200;

/// The physical value, in millivolts, that a raw count stands for once the
/// calibration constant is known: `raw * REFERENCE_MILLIVOLTS / cal`.
pub open spec fn millivolts_of(raw: u16, cal: u16) -> int
    recommends
        cal != 0,
{
    (raw as int * REFERENCE_MILLIVOLTS as int) / cal as int
}

/// Converts a raw count from the external channel to millivolts, dividing by
/// the calibration constant measured from the internal reference.
pub fn convert_to_millivolts(raw: u16, cal: u16) -> (mv: u32)
    requires
        cal != 0,
    ensures
        mv == millivolts_of(raw, cal),
{
    ((raw as u32) * REFERENCE_MILLIVOLTS) / (cal as u32)
}

/// Law: converting the calibration sample itself yields exactly the
/// reference's own millivolt value.
pub proof fn lemma_reference_round_trip(cal: u16)
    requires
        cal != 0,
    ensures
        millivolts_of(cal, cal) == REFERENCE_MILLIVOLTS,
{
    assert((cal as int * REFERENCE_MILLIVOLTS as int) / cal as int == REFERENCE_MILLIVOLTS as int)
        by (nonlinear_arith)
        requires
            cal != 0;
}

/// Law: a raw count of zero converts to zero millivolts, whatever the
/// calibration constant.
pub proof fn lemma_zero_count_converts_to_zero(cal: u16)
    requires
        cal != 0,
    ensures
        millivolts_of(0, cal) == 0,
{
    assert(0int / cal as int == 0) by (nonlinear_arith)
        requires
            cal != 0;
}

} // verus!
