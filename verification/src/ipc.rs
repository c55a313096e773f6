//! The request surface of the analyzer: what a consumer may ask for and
//! which configuration fields it may update.
//!
//! Serialization of these requests to and from a concrete user-interface
//! transport is an external collaborator's concern; the core only defines
//! the requests themselves, with every scalar a single-precision bit
//! pattern.

use crate::monitor::Meter;
use vstd::prelude::*;

verus! {

/// A request for a freshly drawn data set.
#[derive(Clone, Copy, PartialEq, Eq, Structural, Debug)]
pub enum DrawRequest {
    /// The spectrum curve, as normalized drawing coordinates.
    Spectrum,
}

/// One discrete configuration update. Frame rate and monitor mode and decay
/// reconfigure the monitor array; the rest mutate the display
/// configuration, where a degenerate range or slope is rejected atomically.
#[derive(Clone, Copy, PartialEq, Eq, Structural, Debug)]
pub enum SpectrumAnalyzerConfigUpdate {
    /// The consumer's polling rate, in frames per second.
    Fps(u32),
    /// The meter mode, with its decay time where it has one.
    MonitorMode(Meter),
    /// The decay time in seconds, keeping the mode's kind.
    DecaySpeed(u32),
    /// The interpolation toggle.
    Interpolate(bool),
    /// The slope compensation, in dB per octave.
    Slope(u32),
    /// The frequency display range, in Hz.
    FrequencyRange(u32, u32),
    /// The magnitude display range, in dB.
    MagnitudeRange(u32, u32),
}

} // verus!
