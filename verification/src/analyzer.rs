//! The analyzer's consumer-side orchestrator: one smoothing monitor per
//! spectrum bin, the display configuration, and the sample transport's
//! receiving end, driven at the consumer's own polling rate.
//!
//! The spectral transform itself and every rounding operation live with the
//! embedding layer; this orchestrator proves how a draw request and every
//! configuration update move the analyzer's state: the monitor array keeps
//! exactly one monitor per bin for the engine's whole life, every
//! reconfiguration touches only coefficients and modes — never previously
//! computed levels — and a rejected configuration update leaves everything
//! as it was.

use crate::bits::{eq_bits, eq_of, in_unit_open_of, ZERO_BITS};
use crate::config::{
    frequency_range_ok, frequency_range_set, interpolate_set, magnitude_range_ok,
    magnitude_range_set, slope_ok, slope_set, ConfigError, SpectrumAnalyzerConfig,
};
use crate::ipc::SpectrumAnalyzerConfigUpdate;
use crate::monitor::{
    decay_reconfigured, frame_rate_reconfigured, level_shown, mode_reconfigured, ticked, Meter,
    Monitor,
};
use crate::processing::{output_length, output_length_spec};
use crate::transport::SampleTransport;
use vstd::pervasive::VecAdditionalExecFns;
use vstd::prelude::*;

verus! {

/// Default length of the analysis window, in samples.
pub const DEFAULT_WINDOW_LENGTH: usize = 4096;

/// The largest analysis window the orchestrator accepts.
pub const MAX_WINDOW_LENGTH: usize = 0x0010_0000;

/// Default polling rate, `60` frames per second.
pub const DEFAULT_FPS_BITS: u32 = 0x4270_0000;

/// Default decay time of the default meter mode, `0.25` seconds.
pub const DEFAULT_PEAK_DECAY_BITS: u32 = 0x3e80_0000;

/// The default meter mode: mean-square tracking with the default decay.
pub fn default_meter() -> (meter: Meter)
    ensures
        meter == Meter::Rms(DEFAULT_PEAK_DECAY_BITS),
{
    Meter::Rms(DEFAULT_PEAK_DECAY_BITS)
}

/// Whether every monitor of a bank runs in `Sample` mode, where no
/// smoothing coefficient is in use at all.
pub open spec fn all_sample(monitors: Seq<Monitor>) -> bool {
    forall|i: int|
        0 <= i < monitors.len() ==> (#[trigger] monitors[i]).meter_spec() is Sample
}

/// The consumer-side analyzer: the receiving end of the sample transport,
/// one monitor per spectrum bin, and the display configuration.
pub struct SpectrumAnalyzerHelper {
    transport: SampleTransport,
    config: SpectrumAnalyzerConfig,
    monitors: Vec<Monitor>,
    fps: u32,
    window_length: usize,
}

impl SpectrumAnalyzerHelper {
    /// The display configuration.
    pub closed spec fn config_spec(&self) -> SpectrumAnalyzerConfig {
        self.config
    }

    /// The monitor bank, one monitor per spectrum bin.
    pub closed spec fn monitors_spec(&self) -> Seq<Monitor> {
        self.monitors@
    }

    /// The polling rate the monitors were last configured for.
    pub closed spec fn fps_spec(&self) -> u32 {
        self.fps
    }

    /// The length of the analysis window, in samples.
    pub closed spec fn window_length_spec(&self) -> usize {
        self.window_length
    }

    /// The capacity of the sample transport.
    pub closed spec fn transport_capacity_spec(&self) -> usize {
        self.transport.capacity_spec()
    }

    /// The analyzer invariant: exactly one monitor per bin — the window's
    /// half length plus the zero-frequency bin — a well-formed
    /// configuration, and every coefficient in use strictly between zero
    /// and one.
    pub open spec fn inv(&self) -> bool {
        &&& 2 <= self.window_length_spec() <= MAX_WINDOW_LENGTH
        &&& self.monitors_spec().len() == self.window_length_spec() as int / 2 + 1
        &&& self.config_spec().inv()
        &&& forall|i: int|
            0 <= i < self.monitors_spec().len() ==> (#[trigger] self.monitors_spec()[i]).inv()
    }

    /// Create the analyzer: a monitor per bin, all on the given mode with
    /// zero state, the default display configuration, and the receiving
    /// end of the sample transport. `smoothing` must be the coefficient
    /// derived from the mode's decay time and `frame_rate`. The window
    /// length is fixed here for the analyzer's whole life; the engine wants
    /// a power of two, and this orchestrator relies only on it being even.
    pub fn new(
        window_length: usize,
        meter: Meter,
        frame_rate: u32,
        smoothing: u32,
        transport: SampleTransport,
    ) -> (h: SpectrumAnalyzerHelper)
        requires
            2 <= window_length <= MAX_WINDOW_LENGTH,
            window_length % 2 == 0,
            meter is Sample || in_unit_open_of(smoothing),
        ensures
            h.inv(),
            h.window_length_spec() == window_length,
            h.fps_spec() == frame_rate,
            h.transport_capacity_spec() == transport.capacity_spec(),
            h.monitors_spec().len() == window_length as int / 2 + 1,
            forall|i: int|
                0 <= i < h.monitors_spec().len() ==> (#[trigger] h.monitors_spec()[i]).meter_spec()
                    == meter && h.monitors_spec()[i].state_spec() == ZERO_BITS,
            forall|i: int|
                0 <= i < h.monitors_spec().len() && !(meter is Sample) ==> (
                #[trigger] h.monitors_spec()[i]).smoothing_spec() == smoothing
                    && h.monitors_spec()[i].fps_spec() == frame_rate,
            h.config_spec().interpolate_spec() == crate::config::DEFAULT_INTERPOLATION,
            h.config_spec().slope_spec() == crate::config::DEFAULT_SLOPE_BITS,
            h.config_spec().frequency_range_spec() == (
                crate::config::DEFAULT_FREQUENCY_LO_BITS,
                crate::config::DEFAULT_FREQUENCY_HI_BITS,
            ),
            h.config_spec().magnitude_range_spec() == (
                crate::config::DEFAULT_MAGNITUDE_LO_BITS,
                crate::config::DEFAULT_MAGNITUDE_HI_BITS,
            ),
    {
        let config = SpectrumAnalyzerConfig::default();
        let template = Monitor::new(meter, frame_rate, smoothing);
        let count = window_length / 2 + 1;
        let mut monitors: Vec<Monitor> = Vec::new();
        while monitors.len() < count
            invariant
                monitors@.len() <= count,
                forall|i: int| 0 <= i < monitors@.len() ==> monitors@[i] == template,
            decreases count - monitors@.len(),
        {
            monitors.push(template);
        }
        SpectrumAnalyzerHelper { transport, config, monitors, fps: frame_rate, window_length }
    }

    /// Remove and return, in queue order, the samples currently queued by
    /// the audio-rate producer; at most one queue's worth per call.
    pub fn drain_samples(&self) -> (samples: Vec<u32>)
        ensures
            samples@.len() <= self.transport_capacity_spec(),
    {
        self.transport.drain_all()
    }

    /// How many monitors the bank holds: one per spectrum bin.
    pub fn bin_count(&self) -> (n: usize)
        ensures
            n == self.monitors_spec().len(),
    {
        self.monitors.len()
    }

    /// The length of the analysis window, in samples.
    pub fn window_length(&self) -> (n: usize)
        ensures
            n == self.window_length_spec(),
    {
        self.window_length
    }

    /// The polling rate the monitors were last configured for.
    pub fn fps_bits(&self) -> (fps: u32)
        ensures
            fps == self.fps_spec(),
    {
        self.fps
    }

    /// The display configuration.
    pub fn config(&self) -> (config: &SpectrumAnalyzerConfig)
        ensures
            *config == self.config_spec(),
    {
        &self.config
    }

    /// The meter mode of the monitor at `index`.
    pub fn meter_at(&self, index: usize) -> (meter: Meter)
        requires
            index < self.monitors_spec().len(),
        ensures
            meter == self.monitors_spec()[index as int].meter_spec(),
    {
        self.monitors[index].meter()
    }

    /// The smoothing coefficient of the monitor at `index`, for the
    /// embedding layer to derive the release arithmetic from.
    pub fn smoothing_at(&self, index: usize) -> (smoothing: u32)
        requires
            index < self.monitors_spec().len(),
        ensures
            smoothing == self.monitors_spec()[index as int].smoothing_spec(),
    {
        self.monitors[index].smoothing_bits()
    }

    /// Whether a requested polling rate differs from the configured one,
    /// exactly as single-precision inequality decides it: the two zeros are
    /// one rate, and a rate that is not a number differs from everything.
    pub fn frame_rate_changed(&self, frame_rate: u32) -> (changed: bool)
        ensures
            changed == !eq_of(frame_rate, self.fps_spec()),
    {
        !eq_bits(frame_rate, self.fps)
    }

    /// How many points the next drawn curve will have: the window length
    /// when interpolating, the bin count when not.
    pub fn output_points(&self) -> (n: usize)
        ensures
            n == output_length_spec(
                self.config_spec().interpolate_spec(),
                self.window_length_spec() as int,
                self.monitors_spec().len() as int,
            ),
    {
        output_length(self.config.interpolate(), self.window_length, self.monitors.len())
    }

    /// The current filter state of every monitor, in bin order, for the
    /// embedding layer to derive the release arithmetic from.
    pub fn states(&self) -> (states: Vec<u32>)
        ensures
            states@.len() == self.monitors_spec().len(),
            forall|i: int|
                0 <= i < states@.len() ==> states@[i] == self.monitors_spec()[i].state_spec(),
    {
        let mut states: Vec<u32> = Vec::new();
        let n = self.monitors.len();
        let mut i: usize = 0;
        while i < n
            invariant
                i <= n,
                n == self.monitors@.len(),
                states@.len() == i,
                forall|j: int| 0 <= j < i ==> states@[j] == self.monitors@[j].state_spec(),
            decreases n - i,
        {
            states.push(self.monitors[i].state_bits());
            i = i + 1;
        }
        states
    }

    /// Reconfigure every monitor for a new polling rate. `smoothing` must
    /// be the coefficient derived from the current decay time and
    /// `frame_rate`; a bank running entirely in `Sample` mode needs none.
    /// No monitor loses its previously computed state: the change affects
    /// only the ticks that follow it.
    pub fn set_monitor_fps(&mut self, frame_rate: u32, smoothing: u32)
        requires
            old(self).inv(),
            in_unit_open_of(smoothing) || all_sample(old(self).monitors_spec()),
        ensures
            final(self).inv(),
            final(self).fps_spec() == frame_rate,
            final(self).config_spec() == old(self).config_spec(),
            final(self).window_length_spec() == old(self).window_length_spec(),
            final(self).transport_capacity_spec() == old(self).transport_capacity_spec(),
            final(self).monitors_spec().len() == old(self).monitors_spec().len(),
            forall|i: int|
                0 <= i < old(self).monitors_spec().len() ==> frame_rate_reconfigured(
                    old(self).monitors_spec()[i],
                    #[trigger] final(self).monitors_spec()[i],
                    frame_rate,
                    smoothing,
                ),
    {
        let n = self.monitors.len();
        let mut i: usize = 0;
        while i < n
            invariant
                i <= n,
                n == self.monitors@.len(),
                n == old(self).monitors_spec().len(),
                in_unit_open_of(smoothing) || all_sample(old(self).monitors_spec()),
                self.transport == old(self).transport,
                self.config == old(self).config,
                self.fps == old(self).fps,
                self.window_length == old(self).window_length,
                forall|j: int| i <= j < n ==> self.monitors@[j] == old(self).monitors_spec()[j],
                forall|j: int|
                    0 <= j < i ==> frame_rate_reconfigured(
                        old(self).monitors_spec()[j],
                        #[trigger] self.monitors@[j],
                        frame_rate,
                        smoothing,
                    ),
                forall|j: int|
                    0 <= j < n ==> old(self).monitors_spec()[j].inv() ==> (
                    #[trigger] self.monitors@[j]).inv(),
            decreases n - i,
        {
            let mut m = self.monitors[i];
            proof {
                if !in_unit_open_of(smoothing) {
                    assert(old(self).monitors_spec()[i as int].meter_spec() is Sample);
                }
            }
            m.set_frame_rate(frame_rate, smoothing);
            self.monitors.set(i, m);
            i = i + 1;
        }
        self.fps = frame_rate;
    }

    /// Switch every monitor to a new meter mode. `smoothing` must be the
    /// coefficient derived from the new mode's decay time and the current
    /// polling rate; a switch to `Sample` needs none. Every filter state
    /// survives the switch untouched.
    pub fn set_monitor_mode(&mut self, meter: Meter, smoothing: u32)
        requires
            old(self).inv(),
            meter is Sample || in_unit_open_of(smoothing),
        ensures
            final(self).inv(),
            final(self).fps_spec() == old(self).fps_spec(),
            final(self).config_spec() == old(self).config_spec(),
            final(self).window_length_spec() == old(self).window_length_spec(),
            final(self).transport_capacity_spec() == old(self).transport_capacity_spec(),
            final(self).monitors_spec().len() == old(self).monitors_spec().len(),
            forall|i: int|
                0 <= i < old(self).monitors_spec().len() ==> mode_reconfigured(
                    old(self).monitors_spec()[i],
                    #[trigger] final(self).monitors_spec()[i],
                    meter,
                    smoothing,
                ),
    {
        let n = self.monitors.len();
        let mut i: usize = 0;
        while i < n
            invariant
                i <= n,
                n == self.monitors@.len(),
                n == old(self).monitors_spec().len(),
                meter is Sample || in_unit_open_of(smoothing),
                self.transport == old(self).transport,
                self.config == old(self).config,
                self.fps == old(self).fps,
                self.window_length == old(self).window_length,
                forall|j: int| i <= j < n ==> self.monitors@[j] == old(self).monitors_spec()[j],
                forall|j: int|
                    0 <= j < i ==> mode_reconfigured(
                        old(self).monitors_spec()[j],
                        #[trigger] self.monitors@[j],
                        meter,
                        smoothing,
                    ),
                forall|j: int| 0 <= j < i ==> (#[trigger] self.monitors@[j]).inv(),
            decreases n - i,
        {
            let mut m = self.monitors[i];
            m.set_mode(meter, smoothing);
            self.monitors.set(i, m);
            i = i + 1;
        }
    }

    /// Change every monitor's decay time, keeping each mode's kind.
    /// `smoothing` must be the coefficient derived from `new_speed` and the
    /// current polling rate; a bank running entirely in `Sample` mode needs
    /// none. No monitor loses its previously computed state: the change
    /// affects only the ticks that follow it.
    pub fn set_monitor_decay_speed(&mut self, new_speed: u32, smoothing: u32)
        requires
            old(self).inv(),
            in_unit_open_of(smoothing) || all_sample(old(self).monitors_spec()),
        ensures
            final(self).inv(),
            final(self).fps_spec() == old(self).fps_spec(),
            final(self).config_spec() == old(self).config_spec(),
            final(self).window_length_spec() == old(self).window_length_spec(),
            final(self).transport_capacity_spec() == old(self).transport_capacity_spec(),
            final(self).monitors_spec().len() == old(self).monitors_spec().len(),
            forall|i: int|
                0 <= i < old(self).monitors_spec().len() ==> decay_reconfigured(
                    old(self).monitors_spec()[i],
                    #[trigger] final(self).monitors_spec()[i],
                    new_speed,
                    smoothing,
                ),
    {
        let n = self.monitors.len();
        let mut i: usize = 0;
        while i < n
            invariant
                i <= n,
                n == self.monitors@.len(),
                n == old(self).monitors_spec().len(),
                in_unit_open_of(smoothing) || all_sample(old(self).monitors_spec()),
                self.transport == old(self).transport,
                self.config == old(self).config,
                self.fps == old(self).fps,
                self.window_length == old(self).window_length,
                forall|j: int| i <= j < n ==> self.monitors@[j] == old(self).monitors_spec()[j],
                forall|j: int|
                    0 <= j < i ==> decay_reconfigured(
                        old(self).monitors_spec()[j],
                        #[trigger] self.monitors@[j],
                        new_speed,
                        smoothing,
                    ),
                forall|j: int|
                    0 <= j < n ==> old(self).monitors_spec()[j].inv() ==> (
                    #[trigger] self.monitors@[j]).inv(),
            decreases n - i,
        {
            let mut m = self.monitors[i];
            proof {
                if !in_unit_open_of(smoothing) {
                    assert(old(self).monitors_spec()[i as int].meter_spec() is Sample);
                }
            }
            m.set_decay_speed(new_speed, smoothing);
            self.monitors.set(i, m);
            i = i + 1;
        }
    }

    /// Tick every monitor once from the latest magnitude snapshot.
    /// `released` carries the release arithmetic the embedding layer
    /// computed per bin from the states and the coefficient; it is read
    /// only by smoothing modes. Configuration is never touched by a tick.
    pub fn tick_monitors(&mut self, snapshot: &Vec<u32>, released: &Vec<u32>)
        requires
            old(self).inv(),
            snapshot@.len() == old(self).monitors_spec().len(),
            released@.len() == old(self).monitors_spec().len(),
        ensures
            final(self).inv(),
            final(self).fps_spec() == old(self).fps_spec(),
            final(self).config_spec() == old(self).config_spec(),
            final(self).window_length_spec() == old(self).window_length_spec(),
            final(self).transport_capacity_spec() == old(self).transport_capacity_spec(),
            final(self).monitors_spec().len() == old(self).monitors_spec().len(),
            forall|i: int|
                0 <= i < old(self).monitors_spec().len() ==> ticked(
                    old(self).monitors_spec()[i],
                    #[trigger] final(self).monitors_spec()[i],
                    snapshot@[i],
                    released@[i],
                ),
    {
        let n = self.monitors.len();
        let mut i: usize = 0;
        while i < n
            invariant
                i <= n,
                n == self.monitors@.len(),
                n == old(self).monitors_spec().len(),
                snapshot@.len() == n,
                released@.len() == n,
                self.transport == old(self).transport,
                self.config == old(self).config,
                self.fps == old(self).fps,
                self.window_length == old(self).window_length,
                forall|j: int| i <= j < n ==> self.monitors@[j] == old(self).monitors_spec()[j],
                forall|j: int|
                    0 <= j < i ==> ticked(
                        old(self).monitors_spec()[j],
                        #[trigger] self.monitors@[j],
                        snapshot@[j],
                        released@[j],
                    ),
                forall|j: int|
                    0 <= j < n ==> old(self).monitors_spec()[j].inv() ==> (
                    #[trigger] self.monitors@[j]).inv(),
            decreases n - i,
        {
            let mut m = self.monitors[i];
            m.tick(snapshot[i], released[i]);
            self.monitors.set(i, m);
            i = i + 1;
        }
    }

    /// The level of every monitor, in bin order. `roots` carries the
    /// square root of each state, computed by the embedding layer; it is
    /// read only for monitors in `Rms` mode.
    pub fn levels(&self, roots: &Vec<u32>) -> (levels: Vec<u32>)
        requires
            roots@.len() == self.monitors_spec().len(),
        ensures
            levels@.len() == self.monitors_spec().len(),
            forall|i: int|
                0 <= i < levels@.len() ==> levels@[i] == level_shown(
                    self.monitors_spec()[i].meter_spec(),
                    self.monitors_spec()[i].state_spec(),
                    roots@[i],
                ),
    {
        let mut levels: Vec<u32> = Vec::new();
        let n = self.monitors.len();
        let mut i: usize = 0;
        while i < n
            invariant
                i <= n,
                n == self.monitors@.len(),
                roots@.len() == n,
                levels@.len() == i,
                forall|j: int|
                    0 <= j < i ==> levels@[j] == level_shown(
                        self.monitors@[j].meter_spec(),
                        self.monitors@[j].state_spec(),
                        roots@[j],
                    ),
            decreases n - i,
        {
            levels.push(self.monitors[i].level(roots[i]));
            i = i + 1;
        }
        levels
    }

    /// Apply one discrete configuration update. Frame rate, mode and decay
    /// updates reconfigure the monitor bank and always succeed, with
    /// `smoothing` the coefficient the embedding layer derived for the new
    /// setting; the display updates are validated, and a rejected one
    /// leaves the whole analyzer exactly as it was. No update, accepted or
    /// rejected, ever touches a previously computed filter state.
    pub fn handle_config_update(
        &mut self,
        update: SpectrumAnalyzerConfigUpdate,
        smoothing: u32,
    ) -> (r: Result<(), ConfigError>)
        requires
            old(self).inv(),
            match update {
                SpectrumAnalyzerConfigUpdate::Fps(_) => in_unit_open_of(smoothing) || all_sample(
                    old(self).monitors_spec(),
                ),
                SpectrumAnalyzerConfigUpdate::DecaySpeed(_) => in_unit_open_of(smoothing)
                    || all_sample(old(self).monitors_spec()),
                SpectrumAnalyzerConfigUpdate::MonitorMode(meter) => meter is Sample
                    || in_unit_open_of(smoothing),
                _ => true,
            },
        ensures
            final(self).inv(),
            final(self).window_length_spec() == old(self).window_length_spec(),
            final(self).transport_capacity_spec() == old(self).transport_capacity_spec(),
            final(self).monitors_spec().len() == old(self).monitors_spec().len(),
            forall|i: int|
                0 <= i < old(self).monitors_spec().len() ==> (
                #[trigger] final(self).monitors_spec()[i]).state_spec() == old(
                    self,
                ).monitors_spec()[i].state_spec(),
            match update {
                SpectrumAnalyzerConfigUpdate::Fps(frame_rate) => {
                    &&& r is Ok
                    &&& final(self).fps_spec() == frame_rate
                    &&& final(self).config_spec() == old(self).config_spec()
                    &&& forall|i: int|
                        0 <= i < old(self).monitors_spec().len() ==> frame_rate_reconfigured(
                            old(self).monitors_spec()[i],
                            #[trigger] final(self).monitors_spec()[i],
                            frame_rate,
                            smoothing,
                        )
                },
                SpectrumAnalyzerConfigUpdate::MonitorMode(meter) => {
                    &&& r is Ok
                    &&& final(self).fps_spec() == old(self).fps_spec()
                    &&& final(self).config_spec() == old(self).config_spec()
                    &&& forall|i: int|
                        0 <= i < old(self).monitors_spec().len() ==> mode_reconfigured(
                            old(self).monitors_spec()[i],
                            #[trigger] final(self).monitors_spec()[i],
                            meter,
                            smoothing,
                        )
                },
                SpectrumAnalyzerConfigUpdate::DecaySpeed(new_speed) => {
                    &&& r is Ok
                    &&& final(self).fps_spec() == old(self).fps_spec()
                    &&& final(self).config_spec() == old(self).config_spec()
                    &&& forall|i: int|
                        0 <= i < old(self).monitors_spec().len() ==> decay_reconfigured(
                            old(self).monitors_spec()[i],
                            #[trigger] final(self).monitors_spec()[i],
                            new_speed,
                            smoothing,
                        )
                },
                SpectrumAnalyzerConfigUpdate::Interpolate(interpolate) => {
                    &&& r is Ok
                    &&& final(self).monitors_spec() == old(self).monitors_spec()
                    &&& final(self).fps_spec() == old(self).fps_spec()
                    &&& interpolate_set(old(self).config_spec(), final(self).config_spec(), interpolate)
                },
                SpectrumAnalyzerConfigUpdate::Slope(slope) => {
                    &&& final(self).monitors_spec() == old(self).monitors_spec()
                    &&& final(self).fps_spec() == old(self).fps_spec()
                    &&& (r is Ok <==> slope_ok(slope))
                    &&& (r is Ok ==> slope_set(old(self).config_spec(), final(self).config_spec(), slope))
                    &&& (r is Err ==> final(self).config_spec() == old(self).config_spec() && r
                        == Err::<(), ConfigError>(ConfigError::InvalidSlope))
                },
                SpectrumAnalyzerConfigUpdate::FrequencyRange(lo, hi) => {
                    &&& final(self).monitors_spec() == old(self).monitors_spec()
                    &&& final(self).fps_spec() == old(self).fps_spec()
                    &&& (r is Ok <==> frequency_range_ok(lo, hi))
                    &&& (r is Ok ==> frequency_range_set(old(self).config_spec(), final(self).config_spec(), lo, hi))
                    &&& (r is Err ==> final(self).config_spec() == old(self).config_spec() && r
                        == Err::<(), ConfigError>(ConfigError::DegenerateFrequencyRange))
                },
                SpectrumAnalyzerConfigUpdate::MagnitudeRange(lo, hi) => {
                    &&& final(self).monitors_spec() == old(self).monitors_spec()
                    &&& final(self).fps_spec() == old(self).fps_spec()
                    &&& (r is Ok <==> magnitude_range_ok(lo, hi))
                    &&& (r is Ok ==> magnitude_range_set(old(self).config_spec(), final(self).config_spec(), lo, hi))
                    &&& (r is Err ==> final(self).config_spec() == old(self).config_spec() && r
                        == Err::<(), ConfigError>(ConfigError::DegenerateMagnitudeRange))
                },
            },
    {
        match update {
            SpectrumAnalyzerConfigUpdate::Fps(frame_rate) => {
                self.set_monitor_fps(frame_rate, smoothing);
                Ok(())
            },
            SpectrumAnalyzerConfigUpdate::MonitorMode(meter) => {
                self.set_monitor_mode(meter, smoothing);
                Ok(())
            },
            SpectrumAnalyzerConfigUpdate::DecaySpeed(new_speed) => {
                self.set_monitor_decay_speed(new_speed, smoothing);
                Ok(())
            },
            SpectrumAnalyzerConfigUpdate::Interpolate(interpolate) => {
                self.config.set_interpolate(interpolate);
                Ok(())
            },
            SpectrumAnalyzerConfigUpdate::Slope(slope) => self.config.set_slope(slope),
            SpectrumAnalyzerConfigUpdate::FrequencyRange(lo, hi) => self.config.set_frequency_range(
                lo,
                hi,
            ),
            SpectrumAnalyzerConfigUpdate::MagnitudeRange(lo, hi) => self.config.set_magnitude_range(
                lo,
                hi,
            ),
        }
    }
}

} // verus!
