//! The orchestrator: monitor bank sizing, draw-path routing, configuration
//! dispatch, and reconfiguration that never rewrites previous levels.

use spectrum_analyzer::analyzer::{
    default_meter, SpectrumAnalyzerHelper, DEFAULT_FPS_BITS, DEFAULT_PEAK_DECAY_BITS,
    DEFAULT_WINDOW_LENGTH,
};
use spectrum_analyzer::config::ConfigError;
use spectrum_analyzer::ipc::SpectrumAnalyzerConfigUpdate;
use spectrum_analyzer::monitor::Meter;
use spectrum_analyzer::transport::SampleTransport;

/// The smoothing coefficient, as the embedding layer derives it.
fn smoothing(decay_seconds: f32, fps: f32) -> u32 {
    0.5f32.powf(1.0 / (decay_seconds * fps)).to_bits()
}

fn peak_helper(window_length: usize) -> SpectrumAnalyzerHelper {
    let (_, transport) = SampleTransport::new(16);
    SpectrumAnalyzerHelper::new(
        window_length,
        Meter::Peak(0.25f32.to_bits()),
        60.0f32.to_bits(),
        smoothing(0.25, 60.0),
        transport,
    )
}

#[test]
fn bank_holds_one_monitor_per_bin() {
    let h = peak_helper(8);
    assert_eq!(h.bin_count(), 5);
    assert_eq!(h.window_length(), 8);
    let big = peak_helper(4096);
    assert_eq!(big.bin_count(), 2049);
}

#[test]
fn default_mode_is_mean_square_with_the_default_decay() {
    assert!(matches!(default_meter(), Meter::Rms(d) if d == DEFAULT_PEAK_DECAY_BITS));
    assert_eq!(DEFAULT_PEAK_DECAY_BITS, 0.25f32.to_bits());
    assert_eq!(DEFAULT_FPS_BITS, 60.0f32.to_bits());
    assert_eq!(DEFAULT_WINDOW_LENGTH, 4096);
}

#[test]
fn curve_length_follows_the_interpolation_toggle() {
    let mut h = peak_helper(8);
    // interpolation is on by default: one point per window sample
    assert_eq!(h.output_points(), 8);
    let r = h.handle_config_update(SpectrumAnalyzerConfigUpdate::Interpolate(false), 0);
    assert!(r.is_ok());
    // direct mapping: one point per bin
    assert_eq!(h.output_points(), 5);
}

#[test]
fn peak_bank_attacks_instantly_and_shows_levels() {
    let mut h = peak_helper(8);
    let k = f32::from_bits(smoothing(0.25, 60.0));
    let snapshot: Vec<u32> =
        [0.0f32, 0.1, 0.9, 0.2, 0.0].iter().map(|v| v.to_bits()).collect();
    let released: Vec<u32> = h
        .states()
        .iter()
        .map(|s| (f32::from_bits(*s) * k).to_bits())
        .collect();
    h.tick_monitors(&snapshot, &released);
    let roots: Vec<u32> =
        h.states().iter().map(|s| f32::from_bits(*s).sqrt().to_bits()).collect();
    let levels = h.levels(&roots);
    let shown: Vec<f32> = levels.iter().map(|b| f32::from_bits(*b)).collect();
    assert_eq!(shown, vec![0.0, 0.1, 0.9, 0.2, 0.0]);
}

#[test]
fn reconfiguration_keeps_previously_computed_levels() {
    let mut h = peak_helper(8);
    let k = f32::from_bits(smoothing(0.25, 60.0));
    let snapshot: Vec<u32> =
        [0.5f32, 0.1, 0.9, 0.2, 0.7].iter().map(|v| v.to_bits()).collect();
    let released: Vec<u32> =
        h.states().iter().map(|s| (f32::from_bits(*s) * k).to_bits()).collect();
    h.tick_monitors(&snapshot, &released);
    let before = h.states();

    let r = h.handle_config_update(
        SpectrumAnalyzerConfigUpdate::Fps(144.0f32.to_bits()),
        smoothing(0.25, 144.0),
    );
    assert!(r.is_ok());
    assert_eq!(h.states(), before);

    let r = h.handle_config_update(
        SpectrumAnalyzerConfigUpdate::DecaySpeed(1.5f32.to_bits()),
        smoothing(1.5, 144.0),
    );
    assert!(r.is_ok());
    assert_eq!(h.states(), before);

    let r = h.handle_config_update(
        SpectrumAnalyzerConfigUpdate::MonitorMode(Meter::Rms(0.5f32.to_bits())),
        smoothing(0.5, 144.0),
    );
    assert!(r.is_ok());
    assert_eq!(h.states(), before);
    assert!(matches!(h.meter_at(0), Meter::Rms(_)));
}

#[test]
fn decay_update_keeps_the_mode_kind() {
    let mut h = peak_helper(8);
    let r = h.handle_config_update(
        SpectrumAnalyzerConfigUpdate::DecaySpeed(1.5f32.to_bits()),
        smoothing(1.5, 60.0),
    );
    assert!(r.is_ok());
    assert!(matches!(h.meter_at(0), Meter::Peak(d) if d == 1.5f32.to_bits()));
    assert!(matches!(h.meter_at(4), Meter::Peak(d) if d == 1.5f32.to_bits()));
}

#[test]
fn degenerate_range_updates_are_rejected_atomically() {
    let mut h = peak_helper(8);
    let before = h.config().frequency_range_bits();
    let r = h.handle_config_update(
        SpectrumAnalyzerConfigUpdate::FrequencyRange(500.0f32.to_bits(), 20.0f32.to_bits()),
        0,
    );
    assert_eq!(r, Err(ConfigError::DegenerateFrequencyRange));
    assert_eq!(h.config().frequency_range_bits(), before);

    let r = h.handle_config_update(
        SpectrumAnalyzerConfigUpdate::MagnitudeRange(6.0f32.to_bits(), 6.0f32.to_bits()),
        0,
    );
    assert_eq!(r, Err(ConfigError::DegenerateMagnitudeRange));

    let r = h.handle_config_update(
        SpectrumAnalyzerConfigUpdate::Slope((-2.0f32).to_bits()),
        0,
    );
    assert_eq!(r, Err(ConfigError::InvalidSlope));
    assert_eq!(h.config().slope_bits(), 4.5f32.to_bits());
}

#[test]
fn accepted_range_updates_take_effect() {
    let mut h = peak_helper(8);
    let r = h.handle_config_update(
        SpectrumAnalyzerConfigUpdate::FrequencyRange(10.0f32.to_bits(), 22050.0f32.to_bits()),
        0,
    );
    assert!(r.is_ok());
    assert_eq!(
        h.config().frequency_range_bits(),
        (10.0f32.to_bits(), 22050.0f32.to_bits())
    );
    let r = h.handle_config_update(
        SpectrumAnalyzerConfigUpdate::MagnitudeRange((-100.0f32).to_bits(), 6.0f32.to_bits()),
        0,
    );
    assert!(r.is_ok());
}

#[test]
fn frame_rate_comparison_follows_single_precision_inequality() {
    let h = peak_helper(8);
    assert!(!h.frame_rate_changed(60.0f32.to_bits()));
    assert!(h.frame_rate_changed(59.94f32.to_bits()));
    // a rate that is not a number differs from everything
    assert!(h.frame_rate_changed(f32::NAN.to_bits()));
}

#[test]
fn draw_request_drains_the_transport_through_the_helper() {
    let (source, transport) = SampleTransport::new(8);
    let h = SpectrumAnalyzerHelper::new(
        8,
        Meter::Sample,
        60.0f32.to_bits(),
        0,
        transport,
    );
    assert!(source.push(0.25f32.to_bits()));
    assert!(source.push((-0.5f32).to_bits()));
    let drained = h.drain_samples();
    assert_eq!(drained, vec![0.25f32.to_bits(), (-0.5f32).to_bits()]);
    assert!(h.drain_samples().is_empty());
}

#[test]
fn sample_bank_needs_no_coefficient() {
    let (_, transport) = SampleTransport::new(8);
    let mut h = SpectrumAnalyzerHelper::new(
        8,
        Meter::Sample,
        60.0f32.to_bits(),
        0,
        transport,
    );
    let snapshot: Vec<u32> =
        [0.1f32, 0.2, 0.3, 0.4, 0.5].iter().map(|v| v.to_bits()).collect();
    let released = vec![0u32; 5];
    h.tick_monitors(&snapshot, &released);
    let levels = h.levels(&released);
    assert_eq!(levels, snapshot);
}
