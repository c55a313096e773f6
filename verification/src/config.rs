//! The runtime-mutable display configuration: interpolation toggle, slope
//! compensation, and the frequency and magnitude display ranges.
//!
//! Both ranges are kept well-ordered and non-degenerate at all times: an
//! update that would break that is rejected atomically, leaving the previous
//! valid configuration in effect, and is surfaced as a configuration error,
//! distinct from anything in the processing path. The upper frequency is
//! additionally capped by the Nyquist frequency, which lives with the engine
//! and its sample rate, not here; the mapping geometry clamps every bin
//! position to the spectrum it is given, so an upper frequency beyond
//! Nyquist degrades the display but never its safety.

use crate::bits::{
    is_nan_of, le_bits, lemma_sign_split, lt_bits, lt_of, order_key, ZERO_BITS,
};
use vstd::prelude::*;

verus! {

/// Default for the interpolation toggle.
pub const DEFAULT_INTERPOLATION: bool = true;

/// Default slope compensation, `4.5` dB per octave.
pub const DEFAULT_SLOPE_BITS: u32 = 0x4090_0000;

/// Default lower edge of the frequency display range, `10` Hz.
pub const DEFAULT_FREQUENCY_LO_BITS: u32 = 0x4120_0000;

/// Default upper edge of the frequency display range, `20000` Hz.
pub const DEFAULT_FREQUENCY_HI_BITS: u32 = 0x469c_4000;

/// Default lower edge of the magnitude display range, `-100` dB.
pub const DEFAULT_MAGNITUDE_LO_BITS: u32 = 0xc2c8_0000;

/// Default upper edge of the magnitude display range, `6` dB.
pub const DEFAULT_MAGNITUDE_HI_BITS: u32 = 0x40c0_0000;

/// A rejected configuration update. The previous configuration stays in
/// effect whenever one of these is returned.
#[derive(Clone, Copy, PartialEq, Eq, Structural, Debug)]
pub enum ConfigError {
    /// A frequency range whose lower edge is not strictly positive or not
    /// strictly below its upper edge.
    DegenerateFrequencyRange,
    /// A magnitude range whose lower edge is not strictly below its upper
    /// edge.
    DegenerateMagnitudeRange,
    /// A slope that is not a number or is negative.
    InvalidSlope,
}

/// The display configuration. All scalars are single-precision bit
/// patterns.
pub struct SpectrumAnalyzerConfig {
    interpolate: bool,
    slope: u32,
    frequency_range: (u32, u32),
    magnitude_range: (u32, u32),
}

/// A well-formed frequency range: strictly positive lower edge, strictly
/// below the upper edge.
pub open spec fn frequency_range_ok(lo: u32, hi: u32) -> bool {
    lt_of(ZERO_BITS, lo) && lt_of(lo, hi)
}

/// A well-formed magnitude range: lower edge strictly below the upper edge.
pub open spec fn magnitude_range_ok(lo: u32, hi: u32) -> bool {
    lt_of(lo, hi)
}

/// A well-formed slope: a non-negative number.
pub open spec fn slope_ok(slope: u32) -> bool {
    !is_nan_of(slope) && order_key(slope) >= 0
}

/// What an accepted interpolation update does: that field replaced, every
/// other kept.
pub open spec fn interpolate_set(
    before: SpectrumAnalyzerConfig,
    after: SpectrumAnalyzerConfig,
    interpolate: bool,
) -> bool {
    &&& after.interpolate_spec() == interpolate
    &&& after.slope_spec() == before.slope_spec()
    &&& after.frequency_range_spec() == before.frequency_range_spec()
    &&& after.magnitude_range_spec() == before.magnitude_range_spec()
}

/// What an accepted slope update does: that field replaced, every other
/// kept.
pub open spec fn slope_set(
    before: SpectrumAnalyzerConfig,
    after: SpectrumAnalyzerConfig,
    slope: u32,
) -> bool {
    &&& after.slope_spec() == slope
    &&& after.interpolate_spec() == before.interpolate_spec()
    &&& after.frequency_range_spec() == before.frequency_range_spec()
    &&& after.magnitude_range_spec() == before.magnitude_range_spec()
}

/// What an accepted frequency-range update does: that field replaced, every
/// other kept.
pub open spec fn frequency_range_set(
    before: SpectrumAnalyzerConfig,
    after: SpectrumAnalyzerConfig,
    lo: u32,
    hi: u32,
) -> bool {
    &&& after.frequency_range_spec() == (lo, hi)
    &&& after.interpolate_spec() == before.interpolate_spec()
    &&& after.slope_spec() == before.slope_spec()
    &&& after.magnitude_range_spec() == before.magnitude_range_spec()
}

/// What an accepted magnitude-range update does: that field replaced, every
/// other kept.
pub open spec fn magnitude_range_set(
    before: SpectrumAnalyzerConfig,
    after: SpectrumAnalyzerConfig,
    lo: u32,
    hi: u32,
) -> bool {
    &&& after.magnitude_range_spec() == (lo, hi)
    &&& after.interpolate_spec() == before.interpolate_spec()
    &&& after.slope_spec() == before.slope_spec()
    &&& after.frequency_range_spec() == before.frequency_range_spec()
}

impl SpectrumAnalyzerConfig {
    /// The interpolation toggle.
    pub closed spec fn interpolate_spec(&self) -> bool {
        self.interpolate
    }

    /// The slope compensation, in dB per octave.
    pub closed spec fn slope_spec(&self) -> u32 {
        self.slope
    }

    /// The frequency display range, in Hz.
    pub closed spec fn frequency_range_spec(&self) -> (u32, u32) {
        self.frequency_range
    }

    /// The magnitude display range, in dB.
    pub closed spec fn magnitude_range_spec(&self) -> (u32, u32) {
        self.magnitude_range
    }

    /// The configuration invariant: both ranges well-ordered and
    /// non-degenerate, the slope a non-negative number.
    pub open spec fn inv(&self) -> bool {
        &&& frequency_range_ok(self.frequency_range_spec().0, self.frequency_range_spec().1)
        &&& magnitude_range_ok(self.magnitude_range_spec().0, self.magnitude_range_spec().1)
        &&& slope_ok(self.slope_spec())
    }

    /// The interpolation toggle.
    pub fn interpolate(&self) -> (v: bool)
        ensures
            v == self.interpolate_spec(),
    {
        self.interpolate
    }

    /// The slope compensation, in dB per octave.
    pub fn slope_bits(&self) -> (v: u32)
        ensures
            v == self.slope_spec(),
    {
        self.slope
    }

    /// The frequency display range, in Hz.
    pub fn frequency_range_bits(&self) -> (v: (u32, u32))
        ensures
            v == self.frequency_range_spec(),
    {
        self.frequency_range
    }

    /// The magnitude display range, in dB.
    pub fn magnitude_range_bits(&self) -> (v: (u32, u32))
        ensures
            v == self.magnitude_range_spec(),
    {
        self.magnitude_range
    }

    /// Switch interpolation on or off. Always valid; nothing else changes.
    pub fn set_interpolate(&mut self, interpolate: bool)
        ensures
            interpolate_set(*old(self), *final(self), interpolate),
            old(self).inv() ==> final(self).inv(),
    {
        self.interpolate = interpolate;
    }

    /// Update the slope compensation. Accepted exactly when the new slope
    /// is a non-negative number; a rejected update leaves the whole
    /// configuration as it was.
    pub fn set_slope(&mut self, slope: u32) -> (r: Result<(), ConfigError>)
        ensures
            r is Ok <==> slope_ok(slope),
            r is Ok ==> slope_set(*old(self), *final(self), slope),
            r is Err ==> *final(self) == *old(self) && r == Err::<(), ConfigError>(
                ConfigError::InvalidSlope,
            ),
            old(self).inv() ==> final(self).inv(),
    {
        proof {
            lemma_sign_split(ZERO_BITS);
        }
        if le_bits(ZERO_BITS, slope) {
            self.slope = slope;
            Ok(())
        } else {
            Err(ConfigError::InvalidSlope)
        }
    }

    /// Update the frequency display range. Accepted exactly when the lower
    /// edge is strictly positive and strictly below the upper edge; a
    /// rejected update leaves the whole configuration as it was.
    pub fn set_frequency_range(&mut self, lo: u32, hi: u32) -> (r: Result<(), ConfigError>)
        ensures
            r is Ok <==> frequency_range_ok(lo, hi),
            r is Ok ==> frequency_range_set(*old(self), *final(self), lo, hi),
            r is Err ==> *final(self) == *old(self) && r == Err::<(), ConfigError>(
                ConfigError::DegenerateFrequencyRange,
            ),
            old(self).inv() ==> final(self).inv(),
    {
        if lt_bits(ZERO_BITS, lo) && lt_bits(lo, hi) {
            self.frequency_range = (lo, hi);
            Ok(())
        } else {
            Err(ConfigError::DegenerateFrequencyRange)
        }
    }

    /// Update the magnitude display range. Accepted exactly when the lower
    /// edge is strictly below the upper edge; a rejected update leaves the
    /// whole configuration as it was.
    pub fn set_magnitude_range(&mut self, lo: u32, hi: u32) -> (r: Result<(), ConfigError>)
        ensures
            r is Ok <==> magnitude_range_ok(lo, hi),
            r is Ok ==> magnitude_range_set(*old(self), *final(self), lo, hi),
            r is Err ==> *final(self) == *old(self) && r == Err::<(), ConfigError>(
                ConfigError::DegenerateMagnitudeRange,
            ),
            old(self).inv() ==> final(self).inv(),
    {
        if lt_bits(lo, hi) {
            self.magnitude_range = (lo, hi);
            Ok(())
        } else {
            Err(ConfigError::DegenerateMagnitudeRange)
        }
    }
}

impl Default for SpectrumAnalyzerConfig {
    /// The default configuration: interpolation on, a slope of `4.5` dB per
    /// octave, frequencies from `10` Hz to `20000` Hz, magnitudes from
    /// `-100` dB to `6` dB.
    fn default() -> (c: Self)
        ensures
            c.inv(),
            c.interpolate_spec() == DEFAULT_INTERPOLATION,
            c.slope_spec() == DEFAULT_SLOPE_BITS,
            c.frequency_range_spec() == (DEFAULT_FREQUENCY_LO_BITS, DEFAULT_FREQUENCY_HI_BITS),
            c.magnitude_range_spec() == (DEFAULT_MAGNITUDE_LO_BITS, DEFAULT_MAGNITUDE_HI_BITS),
    {
        proof {
            lemma_sign_split(ZERO_BITS);
            lemma_sign_split(DEFAULT_SLOPE_BITS);
            lemma_sign_split(DEFAULT_FREQUENCY_LO_BITS);
            lemma_sign_split(DEFAULT_FREQUENCY_HI_BITS);
            lemma_sign_split(DEFAULT_MAGNITUDE_LO_BITS);
            lemma_sign_split(DEFAULT_MAGNITUDE_HI_BITS);
        }
        SpectrumAnalyzerConfig {
            interpolate: DEFAULT_INTERPOLATION,
            slope: DEFAULT_SLOPE_BITS,
            frequency_range: (DEFAULT_FREQUENCY_LO_BITS, DEFAULT_FREQUENCY_HI_BITS),
            magnitude_range: (DEFAULT_MAGNITUDE_LO_BITS, DEFAULT_MAGNITUDE_HI_BITS),
        }
    }
}

} // verus!
