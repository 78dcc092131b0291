//! A verified model of a combined clipper / transient-shaper audio stage.
//!
//! Amplitudes, gains and filter coefficients are carried as signed 64-bit
//! integers in Q16 fixed point (one unit is `fixed::FX_ONE`), so that every
//! per-sample recurrence of the signal path has an exact arithmetic meaning
//! that the contracts can state and the verifier can check.

pub mod fixed;
pub mod clip;
pub mod envelope;
pub mod transient;
pub mod oversample;
pub mod shape;
pub mod punch;
pub mod modes;
