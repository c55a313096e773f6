//! Geometry of the log-frequency resampling: output sizing, bin clamping
//! and the reach of the interpolation kernel.
//!
//! The mapper walks an output curve of points, maps each point
//! geometrically to a frequency, converts that to a fractional bin
//! position, and reads the spectrum either at the nearest bin alone or
//! through a windowed-sinc kernel of a fixed radius around it. Computing
//! the fractional position and the kernel weights is rounding arithmetic
//! and stays with the embedding layer; which bins may be read at all —
//! the clamping of the mapped bin and the exact window of taps — is
//! integer geometry and is proved here.

use vstd::prelude::*;

verus! {

/// The radius of the windowed-sinc interpolation kernel, in bins.
pub const KERNEL_RADIUS: usize = 10;

/// How many points the output curve has: one per output sample of the
/// window when interpolating, one per spectrum bin when not.
pub open spec fn output_length_spec(interpolate: bool, window_length: int, bin_count: int) -> int {
    if interpolate {
        window_length
    } else {
        bin_count
    }
}

/// A fractional bin position clamped into the spectrum `[0, half_length]`.
pub open spec fn clamped_bin(position: int, half_length: int) -> int {
    if position < 0 {
        0
    } else if position > half_length {
        half_length
    } else {
        position
    }
}

/// The first tap of the interpolation window around bin `p`: `p - radius`,
/// cut off at the lowest bin.
pub open spec fn first_tap(p: int, radius: int) -> int {
    if p >= radius {
        p - radius
    } else {
        0
    }
}

/// The last tap of the interpolation window around bin `p`: `p + radius + 1`,
/// cut off at the highest bin `half_length`.
pub open spec fn last_tap(p: int, radius: int, half_length: int) -> int {
    if p + radius + 1 <= half_length {
        p + radius + 1
    } else {
        half_length
    }
}

/// The length of the output curve: the window length when interpolating,
/// the spectrum's own bin count when not.
pub fn output_length(interpolate: bool, window_length: usize, bin_count: usize) -> (n: usize)
    ensures
        n == output_length_spec(interpolate, window_length as int, bin_count as int),
{
    if interpolate {
        window_length
    } else {
        bin_count
    }
}

/// Clamp a mapped bin position into the spectrum. The position arrives as
/// a signed integer because a frequency below one bin's width rounds below
/// zero and a frequency beyond Nyquist rounds beyond `half_length`.
pub fn nearest_bin(position: i64, half_length: usize) -> (p: usize)
    requires
        half_length <= 0x7fff_ffff_ffff_ffff,
    ensures
        p == clamped_bin(position as int, half_length as int),
        p <= half_length,
{
    if position < 0 {
        0
    } else if position >= half_length as i64 {
        half_length
    } else {
        position as usize
    }
}

/// The window of taps the interpolation kernel may read around bin `p`:
/// every bin from `p - radius` through `p + radius + 1`, cut to the
/// spectrum `[0, half_length]`. The window never reaches outside the
/// kernel radius (one past it above), never outside the spectrum, and is
/// never empty.
pub fn tap_bounds(p: usize, radius: usize, half_length: usize) -> (bounds: (usize, usize))
    requires
        p <= half_length,
        half_length + radius + 1 <= usize::MAX,
    ensures
        bounds.0 == first_tap(p as int, radius as int),
        bounds.1 == last_tap(p as int, radius as int, half_length as int),
        bounds.0 <= p <= bounds.1,
        bounds.1 <= half_length,
        p - radius <= bounds.0 as int,
        bounds.1 <= p + radius + 1,
{
    let lo = if p >= radius {
        p - radius
    } else {
        0
    };
    let hi = if half_length - p > radius {
        p + radius + 1
    } else {
        half_length
    };
    (lo, hi)
}

/// No energy appears outside the kernel's reach: every tap between the
/// first and the last lies both inside the spectrum and within the kernel
/// radius of the mapped bin (one past it above), so an output point gathers
/// contributions only from bins the kernel covers.
pub proof fn lemma_taps_within_kernel(p: int, radius: int, half_length: int)
    requires
        0 <= p <= half_length,
        radius >= 0,
    ensures
        0 <= first_tap(p, radius),
        p - radius <= first_tap(p, radius),
        first_tap(p, radius) <= p <= last_tap(p, radius, half_length),
        last_tap(p, radius, half_length) <= half_length,
        last_tap(p, radius, half_length) <= p + radius + 1,
{
}

} // verus!
