//! Monitor behaviour on concrete values, with the rounding arithmetic of
//! the release path computed here the way an embedding layer would.

use spectrum_analyzer::bits::in_unit_open_bits;
use spectrum_analyzer::monitor::{Meter, Monitor};

/// The smoothing coefficient, as the embedding layer derives it.
fn smoothing(decay_seconds: f32, fps: f32) -> u32 {
    0.5f32.powf(1.0 / (decay_seconds * fps)).to_bits()
}

#[test]
fn derived_coefficients_lie_strictly_inside_the_unit_interval() {
    for &(decay, fps) in
        [(0.25, 30.0), (0.25, 60.0), (1.5, 60.0), (0.01, 120.0), (10.0, 24.0), (2.0, 144.0)]
            .iter()
    {
        let k = smoothing(decay, fps);
        assert!(in_unit_open_bits(k), "k for decay {decay} fps {fps}");
    }
}

#[test]
fn new_monitor_has_zero_state() {
    let m = Monitor::new(Meter::Peak(1.5f32.to_bits()), 30.0f32.to_bits(), smoothing(1.5, 30.0));
    assert_eq!(m.state_bits(), 0.0f32.to_bits());
    assert!(matches!(m.meter(), Meter::Peak(_)));
}

#[test]
fn sample_tick_passes_the_input_through() {
    let mut m = Monitor::new(Meter::Sample, 60.0f32.to_bits(), 0);
    m.tick(0.75f32.to_bits(), 0);
    assert_eq!(m.level(0), 0.75f32.to_bits());
    m.tick((-0.25f32).to_bits(), 0);
    assert_eq!(m.level(0), (-0.25f32).to_bits());
}

#[test]
fn peak_attack_is_instantaneous() {
    let k = smoothing(0.25, 60.0);
    let mut m = Monitor::new(Meter::Peak(0.25f32.to_bits()), 60.0f32.to_bits(), k);
    // a tick whose magnitude exceeds the released state jumps straight to it
    let released = f32::from_bits(m.state_bits()) * f32::from_bits(k);
    m.tick((-0.9f32).to_bits(), released.to_bits());
    assert_eq!(m.level(0), 0.9f32.to_bits());
}

#[test]
fn peak_release_never_rises_on_smaller_input() {
    let k = smoothing(0.25, 60.0);
    let mut m = Monitor::new(Meter::Peak(0.25f32.to_bits()), 60.0f32.to_bits(), k);
    let released = (f32::from_bits(m.state_bits()) * f32::from_bits(k)).to_bits();
    m.tick(1.0f32.to_bits(), released);
    let mut previous = f32::from_bits(m.level(0));
    for _ in 0..50 {
        let released = (f32::from_bits(m.state_bits()) * f32::from_bits(k)).to_bits();
        m.tick(0.01f32.to_bits(), released);
        let level = f32::from_bits(m.level(0));
        assert!(level <= previous, "peak level rose from {previous} to {level}");
        previous = level;
    }
    assert!(previous < 1.0);
    assert!(previous >= 0.01);
}

#[test]
fn rms_converges_to_the_true_value_on_constant_input() {
    let k_bits = smoothing(0.05, 60.0);
    let k = f32::from_bits(k_bits);
    let mut m = Monitor::new(Meter::Rms(0.05f32.to_bits()), 60.0f32.to_bits(), k_bits);
    let value = 0.6f32;
    for _ in 0..2000 {
        let state = f32::from_bits(m.state_bits());
        let released = (state * k + value * value * (1.0 - k)).to_bits();
        m.tick(value.to_bits(), released);
    }
    let root = f32::from_bits(m.state_bits()).sqrt();
    let level = f32::from_bits(m.level(root.to_bits()));
    assert!((level - 0.6).abs() < 1.0e-4, "rms level {level}");
}

#[test]
fn rms_level_is_the_square_root_of_the_state() {
    let k = smoothing(0.25, 60.0);
    let mut m = Monitor::new(Meter::Rms(0.25f32.to_bits()), 60.0f32.to_bits(), k);
    m.tick(0.5f32.to_bits(), 0.25f32.to_bits());
    assert_eq!(m.state_bits(), 0.25f32.to_bits());
    let root = f32::from_bits(m.state_bits()).sqrt();
    assert_eq!(m.level(root.to_bits()), 0.5f32.to_bits());
}

#[test]
fn frame_rate_change_keeps_previous_state() {
    let k = smoothing(0.25, 60.0);
    let mut m = Monitor::new(Meter::Peak(0.25f32.to_bits()), 60.0f32.to_bits(), k);
    m.tick(0.8f32.to_bits(), 0);
    let before = m.state_bits();
    m.set_frame_rate(144.0f32.to_bits(), smoothing(0.25, 144.0));
    assert_eq!(m.state_bits(), before);
    assert_eq!(m.level(0), before);
}

#[test]
fn decay_change_keeps_previous_state_and_mode_kind() {
    let k = smoothing(0.25, 60.0);
    let mut m = Monitor::new(Meter::Rms(0.25f32.to_bits()), 60.0f32.to_bits(), k);
    m.tick(0.5f32.to_bits(), 0.3f32.to_bits());
    let before = m.state_bits();
    m.set_decay_speed(1.5f32.to_bits(), smoothing(1.5, 60.0));
    assert_eq!(m.state_bits(), before);
    assert!(matches!(m.meter(), Meter::Rms(d) if d == 1.5f32.to_bits()));
}

#[test]
fn mode_change_keeps_previous_state() {
    let k = smoothing(0.25, 60.0);
    let mut m = Monitor::new(Meter::Peak(0.25f32.to_bits()), 60.0f32.to_bits(), k);
    m.tick(0.8f32.to_bits(), 0);
    let before = m.state_bits();
    m.set_mode(Meter::Rms(1.5f32.to_bits()), smoothing(1.5, 60.0));
    assert_eq!(m.state_bits(), before);
    assert!(matches!(m.meter(), Meter::Rms(_)));
}

#[test]
fn sample_monitor_ignores_reconfiguration() {
    let mut m = Monitor::new(Meter::Sample, 60.0f32.to_bits(), 0);
    m.tick(0.4f32.to_bits(), 0);
    m.set_frame_rate(30.0f32.to_bits(), smoothing(0.25, 30.0));
    m.set_decay_speed(2.0f32.to_bits(), smoothing(2.0, 30.0));
    assert_eq!(m.level(0), 0.4f32.to_bits());
    assert!(matches!(m.meter(), Meter::Sample));
}
