//! The discrete decisions of the drag model: boundary-layer selection,
//! Mach-regime classification, input clamping, and boattail-form selection.

use vstd::prelude::*;

use crate::ieee::is_nan;
use crate::ieee::le_bits;
use crate::ieee::lt_bits;
use crate::ieee::nan_bits;
use crate::ieee::val_le;
use crate::ieee::val_lt;

verus! {

/// Bit pattern of 0.5, the lower edge of the validated Mach range.
pub const MACH_LOW: u64 = 0x3FE0_0000_0000_0000;

/// Bit pattern of 5.0, the upper edge of the validated Mach range.
pub const MACH_HIGH: u64 = 0x4014_0000_0000_0000;

/// Bit pattern of 0.85: at or below it the transonic boattail term vanishes.
pub const MACH_BOATTAIL_ONSET: u64 = 0x3FEB_3333_3333_3333;

/// Bit pattern of 0.91: at or below it the transonic wave-drag correction
/// is zero.
pub const MACH_WAVE_ZERO: u64 = 0x3FED_1EB8_51EB_851F;

/// Bit pattern of 0.95: below it the rotating-band drag takes its
/// low-speed power-law form.
pub const MACH_BAND_SPLIT: u64 = 0x3FEE_6666_6666_6666;

/// Bit pattern of 1.0, the sonic breakpoint.
pub const MACH_SONIC: u64 = 0x3FF0_0000_0000_0000;

/// Bit pattern of 1.1: at or below it the supersonic boattail drag takes
/// its near-sonic form.
pub const MACH_BOATTAIL_SPLIT: u64 = 0x3FF1_9999_9999_999A;

/// Bit pattern of 1.41: at or above it the transonic wave-drag correction
/// is at full value.
pub const MACH_WAVE_FULL: u64 = 0x3FF6_8F5C_28F5_C28F;

/// Boundary-layer assumption: whether the airflow over the nose and over
/// the afterbody is taken as laminar or turbulent, which selects the
/// skin-friction correlation applied to each surface.
#[derive(Debug, Clone, Copy)]
pub enum BoundaryLayerCode {
    /// Laminar flow over both nose and afterbody.
    LL,
    /// Laminar flow over the nose, turbulent over the afterbody.
    LT,
    /// Turbulent flow over both nose and afterbody.
    TT,
}

/// Which skin-friction correlation applies to a wetted surface.
#[derive(Debug, Clone, Copy, PartialEq, Eq, Structural)]
pub enum FrictionCorrelation {
    /// The laminar-style, Reynolds-number-based correlation.
    Laminar,
    /// The turbulent-style, Reynolds-number-based correlation.
    Turbulent,
}

/// The correlation the boundary-layer code selects for the nose surface.
pub open spec fn nose_correlation_of(k: BoundaryLayerCode) -> FrictionCorrelation {
    match k {
        BoundaryLayerCode::LL => FrictionCorrelation::Laminar,
        BoundaryLayerCode::LT => FrictionCorrelation::Laminar,
        BoundaryLayerCode::TT => FrictionCorrelation::Turbulent,
    }
}

/// The correlation the boundary-layer code selects for the afterbody surface.
pub open spec fn afterbody_correlation_of(k: BoundaryLayerCode) -> FrictionCorrelation {
    match k {
        BoundaryLayerCode::LL => FrictionCorrelation::Laminar,
        BoundaryLayerCode::LT => FrictionCorrelation::Turbulent,
        BoundaryLayerCode::TT => FrictionCorrelation::Turbulent,
    }
}

/// Selects the skin-friction correlation for the nose surface.
pub fn nose_correlation(k: BoundaryLayerCode) -> (r: FrictionCorrelation)
    ensures
        r == nose_correlation_of(k),
{
    match k {
        BoundaryLayerCode::LL => FrictionCorrelation::Laminar,
        BoundaryLayerCode::LT => FrictionCorrelation::Laminar,
        BoundaryLayerCode::TT => FrictionCorrelation::Turbulent,
    }
}

/// Selects the skin-friction correlation for the afterbody surface.
pub fn afterbody_correlation(k: BoundaryLayerCode) -> (r: FrictionCorrelation)
    ensures
        r == afterbody_correlation_of(k),
{
    match k {
        BoundaryLayerCode::LL => FrictionCorrelation::Laminar,
        BoundaryLayerCode::LT => FrictionCorrelation::Turbulent,
        BoundaryLayerCode::TT => FrictionCorrelation::Turbulent,
    }
}

/// The discrete Mach-regime facts that steer the piecewise drag formulas.
/// Each field answers one branch condition of the model for a given Mach
/// bit pattern; for a NaN input every field is false, so the evaluation
/// falls through to each default branch.
#[derive(Debug, Clone, Copy, PartialEq, Eq, Structural)]
pub struct MachRegime {
    /// Mach > 1: supersonic wave-drag and boattail branch, and the
    /// supersonic stagnation-pressure form.
    pub supersonic: bool,
    /// Mach < 1: subsonic base-pressure closed form.
    pub subsonic_pressure: bool,
    /// Mach < 0.95: low-speed rotating-band power law.
    pub band_low_speed: bool,
    /// Mach <= 0.91: transonic wave-drag correction is zero.
    pub wave_correction_zero: bool,
    /// Mach >= 1.41: transonic wave-drag correction at full value.
    pub wave_correction_full: bool,
    /// Mach <= 1.1: near-sonic supersonic boattail closed form.
    pub boattail_near_sonic: bool,
    /// Mach > 0.85: transonic boattail term present in the subsonic branch.
    pub boattail_transonic: bool,
}

/// Classifies a Mach bit pattern against every fixed breakpoint of the
/// model at once.
pub fn classify(mach: u64) -> (r: MachRegime)
    ensures
        r.supersonic == val_lt(MACH_SONIC, mach),
        r.subsonic_pressure == val_lt(mach, MACH_SONIC),
        r.band_low_speed == val_lt(mach, MACH_BAND_SPLIT),
        r.wave_correction_zero == val_le(mach, MACH_WAVE_ZERO),
        r.wave_correction_full == val_le(MACH_WAVE_FULL, mach),
        r.boattail_near_sonic == val_le(mach, MACH_BOATTAIL_SPLIT),
        r.boattail_transonic == val_lt(MACH_BOATTAIL_ONSET, mach),
{
    MachRegime {
        supersonic: lt_bits(MACH_SONIC, mach),
        subsonic_pressure: lt_bits(mach, MACH_SONIC),
        band_low_speed: lt_bits(mach, MACH_BAND_SPLIT),
        wave_correction_zero: le_bits(mach, MACH_WAVE_ZERO),
        wave_correction_full: le_bits(MACH_WAVE_FULL, mach),
        boattail_near_sonic: le_bits(mach, MACH_BOATTAIL_SPLIT),
        boattail_transonic: lt_bits(MACH_BOATTAIL_ONSET, mach),
    }
}

/// The clamp of a Mach bit pattern into the validated range [0.5, 5.0].
/// A NaN pattern is left as it is, as `f64::clamp` leaves it.
pub open spec fn clamped(m: u64) -> u64 {
    if is_nan(m) {
        m
    } else if val_lt(m, MACH_LOW) {
        MACH_LOW
    } else if val_lt(MACH_HIGH, m) {
        MACH_HIGH
    } else {
        m
    }
}

/// Clamps a Mach bit pattern into the validated range [0.5, 5.0] before
/// the drag formulas are evaluated. Every non-NaN input lands inside the
/// range; a NaN passes through untouched.
pub fn clamp_mach(m: u64) -> (r: u64)
    ensures
        r == clamped(m),
        !is_nan(m) ==> val_le(MACH_LOW, r) && val_le(r, MACH_HIGH),
        is_nan(m) ==> r == m,
{
    proof {
        if !is_nan(m) {
            crate::ieee::lemma_le_total(m, MACH_LOW);
            crate::ieee::lemma_le_total(m, MACH_HIGH);
        }
    }
    if nan_bits(m) {
        m
    } else if lt_bits(m, MACH_LOW) {
        MACH_LOW
    } else if lt_bits(MACH_HIGH, m) {
        MACH_HIGH
    } else {
        m
    }
}

/// Clamping law, low side: every Mach strictly below 0.5 clamps to what
/// 0.5 itself clamps to, so the clamped drag evaluation returns the same
/// value at all such Mach numbers as at 0.5.
pub proof fn lemma_clamp_low(m: u64)
    requires
        val_lt(m, MACH_LOW),
    ensures
        clamped(m) == clamped(MACH_LOW),
{
}

/// Clamping law, high side: every Mach strictly above 5.0 clamps to what
/// 5.0 itself clamps to, so the clamped drag evaluation returns the same
/// value at all such Mach numbers as at 5.0.
pub proof fn lemma_clamp_high(m: u64)
    requires
        val_lt(MACH_HIGH, m),
    ensures
        clamped(m) == clamped(MACH_HIGH),
{
}

/// Clamping law, inside: a Mach within [0.5, 5.0] passes through the clamp
/// unchanged, so the clamped and the unclamped drag evaluation coincide
/// there.
pub proof fn lemma_clamp_within(m: u64)
    requires
        val_le(MACH_LOW, m),
        val_le(m, MACH_HIGH),
    ensures
        clamped(m) == m,
{
}

/// Clamping is idempotent: a pattern that has been clamped once passes a
/// second clamp unchanged.
pub proof fn lemma_clamp_idempotent(m: u64)
    ensures
        clamped(clamped(m)) == clamped(m),
{
}

/// The zero and the full wave-drag correction regimes exclude each other:
/// no Mach number is at once at or below 0.91 and at or above 1.41, so the
/// interpolation band between them is well defined.
pub proof fn lemma_wave_correction_regimes_exclusive(mach: u64)
    ensures
        !(val_le(mach, MACH_WAVE_ZERO) && val_le(MACH_WAVE_FULL, mach)),
{
}

/// Which closed form the boattail drag component takes.
#[derive(Debug, Clone, Copy, PartialEq, Eq, Structural)]
pub enum BoattailForm {
    /// No boattail contribution: the component is exactly zero.
    Absent,
    /// Subsonic branch above Mach 0.85: the transonic-interpolated form.
    Transonic,
    /// Supersonic branch at or below Mach 1.1: the near-sonic form.
    SupersonicNear,
    /// Supersonic branch above Mach 1.1: the exponential-decay form.
    SupersonicFar,
}

/// The boattail form selected for a boattail length and a Mach number,
/// both as bit patterns. The boattail is taken as absent whenever its
/// length is at most zero, and also, below the sonic breakpoint, whenever
/// the Mach number is at most 0.85.
pub open spec fn boattail_form_of(boattail_length: u64, mach: u64) -> BoattailForm {
    if val_lt(MACH_SONIC, mach) {
        if val_le(boattail_length, 0) {
            BoattailForm::Absent
        } else if val_le(mach, MACH_BOATTAIL_SPLIT) {
            BoattailForm::SupersonicNear
        } else {
            BoattailForm::SupersonicFar
        }
    } else {
        if val_le(boattail_length, 0) || val_le(mach, MACH_BOATTAIL_ONSET) {
            BoattailForm::Absent
        } else {
            BoattailForm::Transonic
        }
    }
}

/// Selects the closed form of the boattail drag component.
pub fn boattail_form(boattail_length: u64, mach: u64) -> (r: BoattailForm)
    ensures
        r == boattail_form_of(boattail_length, mach),
{
    if lt_bits(MACH_SONIC, mach) {
        if le_bits(boattail_length, 0) {
            BoattailForm::Absent
        } else if le_bits(mach, MACH_BOATTAIL_SPLIT) {
            BoattailForm::SupersonicNear
        } else {
            BoattailForm::SupersonicFar
        }
    } else {
        if le_bits(boattail_length, 0) || le_bits(mach, MACH_BOATTAIL_ONSET) {
            BoattailForm::Absent
        } else {
            BoattailForm::Transonic
        }
    }
}

/// With a boattail length of zero (or any non-positive length), the
/// boattail component takes its absent form — exact zero — at every Mach
/// number.
pub proof fn lemma_no_boattail(boattail_length: u64, mach: u64)
    requires
        val_le(boattail_length, 0),
    ensures
        boattail_form_of(boattail_length, mach) is Absent,
{
}

} // verus!

