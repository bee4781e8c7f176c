//! Fields that count from one: zero stands for "no data", and a raw value
//! `k` above it for `k - 1` steps of the field's scale.

use vstd::prelude::*;

verus! {

/// The number of steps, times `scale`, that the raw value of a field that
/// counts from one stands for; nothing, which reads as zero, for a raw zero.
pub open spec fn rescaled(raw: nat, scale: nat) -> nat {
    if raw == 0 {
        0
    } else {
        ((raw - 1) * scale) as nat
    }
}

/// A raw zero and a raw one both rescale to zero, and every raw value `k`
/// from two up to `(k - 1) * scale`.
pub proof fn lemma_rescaled(raw: nat, scale: nat)
    ensures
        raw == 0 ==> rescaled(raw, scale) == 0,
        raw == 1 ==> rescaled(raw, scale) == 0,
        raw >= 2 ==> rescaled(raw, scale) == (raw - 1) * scale,
        scale > 0 && raw >= 2 ==> rescaled(raw, scale) > 0,
{
    if raw >= 2 {
        assert((raw - 1) * scale >= 0) by (nonlinear_arith)
            requires
                raw >= 2,
                scale >= 0,
        ;
        if scale > 0 {
            assert((raw - 1) * scale > 0) by (nonlinear_arith)
                requires
                    raw >= 2,
                    scale > 0,
            ;
        }
    }
}

/// Rescales the raw value of a field that counts from one.
pub fn rescale(raw: u16, scale: u16) -> (value: u32)
    ensures
        value == rescaled(raw as nat, scale as nat),
{
    if raw == 0 {
        0
    } else {
        assert((raw - 1) * scale <= 0xFFFF * 0xFFFF) by (nonlinear_arith)
            requires
                1 <= raw <= 0xFFFF,
                scale <= 0xFFFF,
        ;
        assert((raw - 1) * scale >= 0) by (nonlinear_arith)
            requires
                1 <= raw,
                scale >= 0,
        ;
        (raw as u32 - 1) * (scale as u32)
    }
}

/// A target altitude in feet: 32 ft steps counted from one.
pub fn target_altitude(raw: u16) -> (feet: u32)
    ensures
        feet == rescaled(raw as nat, 32),
{
    rescale(raw, 32)
}

/// The difference between GNSS height and barometric altitude in feet:
/// 25 ft steps counted from one.
pub fn gnss_baro_difference(raw: u16) -> (feet: u32)
    ensures
        feet == rescaled(raw as nat, 25),
{
    rescale(raw, 25)
}

/// The altimeter setting that a raw value stands for, in tenths of a
/// millibar: nothing for zero, else 800 mb and 0.8 mb for each count above
/// one.
pub open spec fn qnh_tenths(raw: nat) -> nat {
    if raw == 0 {
        0
    } else {
        8000 + rescaled(raw, 8)
    }
}

/// The altimeter setting in tenths of a millibar.
pub fn altimeter_setting(raw: u16) -> (tenths: u32)
    ensures
        tenths == qnh_tenths(raw as nat),
        raw == 0 ==> tenths == 0,
        raw == 1 ==> tenths == 8000,
        raw >= 2 ==> tenths == 8000 + 8 * (raw - 1),
{
    if raw == 0 {
        0
    } else {
        8000 + rescale(raw, 8)
    }
}

/// A target heading in sixty-fourths of a degree: each raw count is
/// 180/256 of a degree, which is 45 sixty-fourths.
pub fn target_heading(raw: u16) -> (sixty_fourths: u32)
    ensures
        sixty_fourths == 45 * raw,
{
    45 * (raw as u32)
}

} // verus!
