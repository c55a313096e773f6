//! Per-bin smoothing monitors: turning a possibly stale instantaneous
//! magnitude into a temporally stable level at the consumer's polling rate.
//!
//! A monitor runs in one of three modes: `Sample` passes the input through,
//! `Peak` attacks instantly and releases exponentially, and `Rms` tracks the
//! mean square of the input. Peak and Rms smooth with a coefficient
//! `k = 0.5 ^ (1 / (decaySeconds * framesPerSecond))`, recomputed whenever
//! the decay time or the frame rate changes. Computing `k`, the released
//! products and the Rms square root takes rounding arithmetic, which the
//! embedding layer performs and hands in as bit patterns; the monitor
//! proves how every tick and every reconfiguration routes those patterns,
//! that the coefficient in use always lies strictly between zero and one,
//! and that reconfiguration never touches previously computed state.

use crate::bits::{
    abs_bits, in_unit_open_of, is_nan_of, le_of, mag_of, max_bits, max_of, order_key, ZERO_BITS,
};
use vstd::prelude::*;

verus! {

/// The meter mode of a monitor. `Peak` and `Rms` carry their decay time in
/// seconds as a single-precision bit pattern.
#[derive(Clone, Copy, PartialEq, Eq, Structural, Debug)]
pub enum Meter {
    /// The level is the most recent input, unsmoothed.
    Sample,
    /// Instantaneous attack, exponential release.
    Peak(u32),
    /// Exponentially weighted mean square; the level is its square root.
    Rms(u32),
}

/// The filter state a tick leaves behind: the input itself for `Sample`,
/// the greater of the released state and the input magnitude for `Peak`,
/// and the released mean square for `Rms`.
pub open spec fn ticked_state(meter: Meter, value: u32, released: u32) -> u32 {
    match meter {
        Meter::Sample => value,
        Meter::Peak(_) => max_of(released, mag_of(value)),
        Meter::Rms(_) => released,
    }
}

/// The level a monitor shows: the filter state itself for `Sample` and
/// `Peak`, the externally computed square root of the state for `Rms`.
pub open spec fn level_shown(meter: Meter, state: u32, root_of_state: u32) -> u32 {
    if meter is Rms {
        root_of_state
    } else {
        state
    }
}

/// What a frame-rate change does to one monitor: a `Sample` monitor is left
/// untouched; any other keeps its mode and its previously computed state
/// and takes the new coefficient and rate.
pub open spec fn frame_rate_reconfigured(
    before: Monitor,
    after: Monitor,
    frame_rate: u32,
    smoothing: u32,
) -> bool {
    &&& after.state_spec() == before.state_spec()
    &&& after.meter_spec() == before.meter_spec()
    &&& (before.meter_spec() is Sample ==> after == before)
    &&& (!(before.meter_spec() is Sample) ==> after.smoothing_spec() == smoothing
        && after.fps_spec() == frame_rate)
}

/// What a mode change does to one monitor: the mode is replaced, the
/// previously computed state and the rate survive, and the coefficient is
/// replaced whenever the new mode smooths at all.
pub open spec fn mode_reconfigured(
    before: Monitor,
    after: Monitor,
    meter: Meter,
    smoothing: u32,
) -> bool {
    &&& after.meter_spec() == meter
    &&& after.state_spec() == before.state_spec()
    &&& after.fps_spec() == before.fps_spec()
    &&& (meter is Sample ==> after.smoothing_spec() == before.smoothing_spec())
    &&& (!(meter is Sample) ==> after.smoothing_spec() == smoothing)
}

/// What a decay change does to one monitor: a `Sample` monitor is left
/// untouched; any other keeps its mode's kind and its previously computed
/// state, carries the new decay time, and takes the new coefficient.
pub open spec fn decay_reconfigured(
    before: Monitor,
    after: Monitor,
    new_speed: u32,
    smoothing: u32,
) -> bool {
    &&& after.state_spec() == before.state_spec()
    &&& after.fps_spec() == before.fps_spec()
    &&& (before.meter_spec() is Sample ==> after == before)
    &&& (before.meter_spec() matches Meter::Peak(_) ==> after.meter_spec() == Meter::Peak(
        new_speed,
    ) && after.smoothing_spec() == smoothing)
    &&& (before.meter_spec() matches Meter::Rms(_) ==> after.meter_spec() == Meter::Rms(new_speed)
        && after.smoothing_spec() == smoothing)
}

/// What one tick does to one monitor: configuration untouched, the state
/// advanced by `ticked_state`.
pub open spec fn ticked(before: Monitor, after: Monitor, value: u32, released: u32) -> bool {
    &&& after.meter_spec() == before.meter_spec()
    &&& after.smoothing_spec() == before.smoothing_spec()
    &&& after.fps_spec() == before.fps_spec()
    &&& after.state_spec() == ticked_state(before.meter_spec(), value, released)
}

/// One smoothing filter. `state` is the filter state, `smoothing` the
/// coefficient `k`, and `fps` the polling rate both were derived from; all
/// three are single-precision bit patterns.
#[derive(Clone, Copy)]
pub struct Monitor {
    meter: Meter,
    state: u32,
    smoothing: u32,
    fps: u32,
}

impl Monitor {
    /// The meter mode.
    pub closed spec fn meter_spec(&self) -> Meter {
        self.meter
    }

    /// The filter state.
    pub closed spec fn state_spec(&self) -> u32 {
        self.state
    }

    /// The smoothing coefficient `k`.
    pub closed spec fn smoothing_spec(&self) -> u32 {
        self.smoothing
    }

    /// The polling rate the coefficient was derived from.
    pub closed spec fn fps_spec(&self) -> u32 {
        self.fps
    }

    /// The monitor invariant: whenever the mode smooths at all, the
    /// coefficient in use lies strictly between zero and one.
    pub open spec fn inv(&self) -> bool {
        !(self.meter_spec() is Sample) ==> in_unit_open_of(self.smoothing_spec())
    }

    /// Create a monitor with zero state on the given mode. `smoothing` must
    /// be the coefficient derived from the mode's decay time and
    /// `frame_rate`; a `Sample` monitor smooths nothing and records neither.
    pub fn new(meter: Meter, frame_rate: u32, smoothing: u32) -> (m: Monitor)
        requires
            meter is Sample || in_unit_open_of(smoothing),
        ensures
            m.inv(),
            m.meter_spec() == meter,
            m.state_spec() == ZERO_BITS,
            meter is Sample ==> m.smoothing_spec() == ZERO_BITS && m.fps_spec() == ZERO_BITS,
            !(meter is Sample) ==> m.smoothing_spec() == smoothing && m.fps_spec() == frame_rate,
    {
        let mut m = Monitor { meter, state: ZERO_BITS, smoothing: ZERO_BITS, fps: ZERO_BITS };
        m.set_frame_rate(frame_rate, smoothing);
        m
    }

    /// Change the polling rate. `smoothing` must be the coefficient derived
    /// from the current decay time and `frame_rate`. A `Sample` monitor is
    /// left untouched, and no mode ever loses its previously computed state:
    /// a rate change affects only the ticks that follow it.
    pub fn set_frame_rate(&mut self, frame_rate: u32, smoothing: u32)
        requires
            old(self).meter_spec() is Sample || in_unit_open_of(smoothing),
        ensures
            old(self).inv() ==> final(self).inv(),
            frame_rate_reconfigured(*old(self), *final(self), frame_rate, smoothing),
    {
        match self.meter {
            Meter::Sample => {},
            Meter::Peak(_) => {
                self.smoothing = smoothing;
                self.fps = frame_rate;
            },
            Meter::Rms(_) => {
                self.smoothing = smoothing;
                self.fps = frame_rate;
            },
        }
    }

    /// Change the meter mode. `smoothing` must be the coefficient derived
    /// from the new mode's decay time and the current polling rate, since a
    /// new mode brings a new decay time; a switch to `Sample` needs none.
    /// The filter state survives the switch untouched.
    pub fn set_mode(&mut self, meter: Meter, smoothing: u32)
        requires
            meter is Sample || in_unit_open_of(smoothing),
        ensures
            final(self).inv(),
            mode_reconfigured(*old(self), *final(self), meter, smoothing),
    {
        self.meter = meter;
        match meter {
            Meter::Sample => {},
            Meter::Peak(_) => {
                self.smoothing = smoothing;
            },
            Meter::Rms(_) => {
                self.smoothing = smoothing;
            },
        }
    }

    /// Change the decay time, keeping the mode's kind. `smoothing` must be
    /// the coefficient derived from `new_speed` and the current polling
    /// rate. A `Sample` monitor is left untouched, and no mode ever loses
    /// its previously computed state: a decay change affects only the ticks
    /// that follow it.
    pub fn set_decay_speed(&mut self, new_speed: u32, smoothing: u32)
        requires
            old(self).meter_spec() is Sample || in_unit_open_of(smoothing),
        ensures
            old(self).inv() ==> final(self).inv(),
            decay_reconfigured(*old(self), *final(self), new_speed, smoothing),
    {
        match self.meter {
            Meter::Sample => {},
            Meter::Peak(_) => {
                self.meter = Meter::Peak(new_speed);
                self.smoothing = smoothing;
            },
            Meter::Rms(_) => {
                self.meter = Meter::Rms(new_speed);
                self.smoothing = smoothing;
            },
        }
    }

    /// Process one input value. `released` is the rounding arithmetic of the
    /// release path, computed by the embedding layer from the current state
    /// and coefficient: `state * k` for `Peak`, `state * k + value² * (1-k)`
    /// for `Rms`; it is ignored in `Sample` mode. The new state is the input
    /// itself for `Sample`, the greater of the released state and the input
    /// magnitude for `Peak` — the instantaneous attack — and the released
    /// mean square for `Rms`. Configuration is never touched by a tick.
    pub fn tick(&mut self, value: u32, released: u32)
        ensures
            old(self).inv() ==> final(self).inv(),
            ticked(*old(self), *final(self), value, released),
    {
        match self.meter {
            Meter::Sample => {
                self.state = value;
            },
            Meter::Peak(_) => {
                self.state = max_bits(released, abs_bits(value));
            },
            Meter::Rms(_) => {
                self.state = released;
            },
        }
    }

    /// The monitor's level: the filter state itself for `Sample` and
    /// `Peak`, its square root for `Rms`. The square root is rounding
    /// arithmetic, so the embedding layer computes `root_of_state` from the
    /// current state and hands it in; it is read only in `Rms` mode.
    pub fn level(&self, root_of_state: u32) -> (level: u32)
        ensures
            level == level_shown(self.meter_spec(), self.state_spec(), root_of_state),
    {
        match self.meter {
            Meter::Sample => self.state,
            Meter::Peak(_) => self.state,
            Meter::Rms(_) => root_of_state,
        }
    }

    /// The current filter state, for the embedding layer to derive the
    /// release arithmetic and the Rms square root from.
    pub fn state_bits(&self) -> (state: u32)
        ensures
            state == self.state_spec(),
    {
        self.state
    }

    /// The smoothing coefficient in use, for the embedding layer to derive
    /// the release arithmetic from.
    pub fn smoothing_bits(&self) -> (smoothing: u32)
        ensures
            smoothing == self.smoothing_spec(),
    {
        self.smoothing
    }

    /// The current meter mode.
    pub fn meter(&self) -> (meter: Meter)
        ensures
            meter == self.meter_spec(),
    {
        self.meter
    }
}

/// Reconfiguring the polling rate affects only the ticks that follow it:
/// the level a monitor shows, derived from its surviving state and mode, is
/// the same before and after the change.
pub proof fn lemma_frame_rate_change_preserves_level(
    before: Monitor,
    after: Monitor,
    frame_rate: u32,
    smoothing: u32,
    root_of_state: u32,
)
    requires
        frame_rate_reconfigured(before, after, frame_rate, smoothing),
    ensures
        level_shown(after.meter_spec(), after.state_spec(), root_of_state) == level_shown(
            before.meter_spec(),
            before.state_spec(),
            root_of_state,
        ),
{
}

/// Reconfiguring the decay time affects only the ticks that follow it: the
/// mode keeps its kind, the state survives, and the level shown is the same
/// before and after the change.
pub proof fn lemma_decay_change_preserves_level(
    before: Monitor,
    after: Monitor,
    new_speed: u32,
    smoothing: u32,
    root_of_state: u32,
)
    requires
        decay_reconfigured(before, after, new_speed, smoothing),
    ensures
        level_shown(after.meter_spec(), after.state_spec(), root_of_state) == level_shown(
            before.meter_spec(),
            before.state_spec(),
            root_of_state,
        ),
{
}

/// A peak monitor attacks instantly: on a tick whose input magnitude
/// reaches the released state or exceeds it, the new state is the input
/// magnitude — at a tie in value, the same value under the released
/// state's sign of zero.
pub proof fn lemma_peak_instant_attack(released: u32, value: u32)
    requires
        !is_nan_of(released),
        !is_nan_of(value),
        order_key(released) <= order_key(mag_of(value)),
    ensures
        order_key(max_of(released, mag_of(value))) == order_key(mag_of(value)),
        order_key(released) < order_key(mag_of(value)) ==> max_of(released, mag_of(value))
            == mag_of(value),
{
    crate::bits::lemma_mag_of_properties(value);
}

/// A peak monitor releases monotonically: on a tick whose released state
/// and input magnitude both lie at or below a bound, the new state stays
/// at or below that bound — the level never rises between ticks of
/// equal-or-smaller magnitude.
pub proof fn lemma_peak_release_bounded(released: u32, value: u32, bound: u32)
    requires
        le_of(released, bound),
        le_of(mag_of(value), bound),
    ensures
        le_of(max_of(released, mag_of(value)), bound),
{
    crate::bits::lemma_mag_of_properties(value);
}

} // verus!
