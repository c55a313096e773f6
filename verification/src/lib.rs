//! Core of a real-time audio spectrum analyzer: a bounded sample hand-off
//! between the audio-rate producer and the display-rate consumer, per-bin
//! exponential smoothing monitors with runtime-reconfigurable decay, a
//! log-frequency resampling geometry, and a validated display configuration.
//!
//! Every scalar that originates in the signal path (a sample, a magnitude,
//! a level, a decay time, a frame rate) crosses this crate as a raw IEEE-754
//! single-precision bit pattern held in a `u32`. The crate proves everything
//! that is exact on such patterns: ordering, magnitude, selection, state
//! routing, and range validation. Rounding arithmetic (the spectral
//! transform, powers, logarithms, the interpolation weights) is performed by
//! the embedding layer, which hands its results back in as bit patterns.

pub mod analyzer;
pub mod bits;
pub mod config;
pub mod ipc;
pub mod monitor;
pub mod processing;
pub mod transport;
