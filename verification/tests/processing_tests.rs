//! The resampling geometry: output sizing, bin clamping, kernel reach.

use spectrum_analyzer::processing::{nearest_bin, output_length, tap_bounds, KERNEL_RADIUS};

#[test]
fn interpolated_output_has_one_point_per_window_sample() {
    assert_eq!(output_length(true, 4096, 2049), 4096);
    assert_eq!(output_length(true, 1024, 513), 1024);
}

#[test]
fn direct_output_has_one_point_per_bin() {
    assert_eq!(output_length(false, 4096, 2049), 2049);
    assert_eq!(output_length(false, 1024, 513), 513);
}

#[test]
fn bin_positions_clamp_into_the_spectrum() {
    assert_eq!(nearest_bin(-5, 512), 0);
    assert_eq!(nearest_bin(0, 512), 0);
    assert_eq!(nearest_bin(17, 512), 17);
    assert_eq!(nearest_bin(512, 512), 512);
    assert_eq!(nearest_bin(600, 512), 512);
    assert_eq!(nearest_bin(i64::MIN, 512), 0);
    assert_eq!(nearest_bin(i64::MAX, 512), 512);
}

#[test]
fn tap_window_is_cut_at_the_lowest_bin() {
    assert_eq!(tap_bounds(0, KERNEL_RADIUS, 512), (0, 11));
    assert_eq!(tap_bounds(5, KERNEL_RADIUS, 512), (0, 16));
}

#[test]
fn tap_window_is_cut_at_the_highest_bin() {
    assert_eq!(tap_bounds(512, KERNEL_RADIUS, 512), (502, 512));
    assert_eq!(tap_bounds(505, KERNEL_RADIUS, 512), (495, 512));
}

#[test]
fn tap_window_spans_the_kernel_in_the_middle() {
    let (lo, hi) = tap_bounds(100, KERNEL_RADIUS, 512);
    assert_eq!((lo, hi), (90, 111));
    for tap in lo..=hi {
        assert!(tap <= 512);
        assert!(100 - KERNEL_RADIUS as i64 <= tap as i64);
        assert!(tap as i64 <= 100 + KERNEL_RADIUS as i64 + 1);
    }
}
